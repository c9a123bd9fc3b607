//! Q16 fixed-point base: saturating channel division, signed division with
//! truncation toward zero, and exact integer cube and fifth roots.
//!
//! A quantity "in Q16" is an integer holding the real value scaled by 2^16
//! (`FP_ONE`); "in Q32" is scaled by 2^32. Channels of a color always lie in
//! [0, FP_ONE], standing for real values in [0, 1].

use vstd::prelude::*;

verus! {

/// The real value 1 in the Q16 fixed-point format.
pub const FP_ONE: u32 = 65536;

/// Saturating conversion of a Q48 numerator to a Q16 channel: negative values
/// clamp to 0, values of 1 or more clamp to `FP_ONE`, anything between is
/// divided by 2^32 (rounding down).
pub open spec fn spec_chan_of_q48(num: int) -> int {
    if num <= 0 {
        0
    } else if num >= 0x1_0000_0000_0000 {
        65536
    } else {
        num / 0x1_0000_0000
    }
}

/// Bounds of a flooring division of a bounded nonnegative value.
pub proof fn lemma_div_below(x: int, d: int, b: int)
    requires
        0 <= x,
        1 <= d,
        x < b * d,
    ensures
        0 <= x / d < b,
{
    vstd::arithmetic::div_mod::lemma_div_pos_is_pos(x, d);
    vstd::arithmetic::mul::lemma_mul_is_commutative(b, d);
    vstd::arithmetic::div_mod::lemma_multiply_divide_lt(x, d, b);
}

/// A flooring division of a nonnegative value stays at or below any quotient bound.
pub proof fn lemma_div_at_most(x: int, d: int, b: int)
    requires
        0 <= x,
        1 <= d,
        x <= b * d,
    ensures
        0 <= x / d <= b,
{
    vstd::arithmetic::div_mod::lemma_div_pos_is_pos(x, d);
    vstd::arithmetic::mul::lemma_mul_is_commutative(b, d);
    vstd::arithmetic::div_mod::lemma_multiply_divide_le(x, d, b);
}

pub proof fn lemma_chan_of_q48_bounds(num: int)
    ensures
        0 <= spec_chan_of_q48(num) <= 65536,
{
    if 0 < num < 0x1_0000_0000_0000 {
        lemma_div_below(num, 0x1_0000_0000, 65536);
    }
}

/// Saturating division taking a Q48 channel numerator to a Q16 channel.
pub fn chan_of_q48(num: i64) -> (r: u32)
    ensures
        r == spec_chan_of_q48(num as int),
        r <= 65536,
{
    if num <= 0 {
        0
    } else if num >= 0x1_0000_0000_0000 {
        65536
    } else {
        let q: u64 = (num as u64) / 0x1_0000_0000u64;
        proof {
            lemma_chan_of_q48_bounds(num as int);
        }
        q as u32
    }
}

/// Saturating conversion of a Q32 numerator to a Q16 channel: negative values
/// clamp to 0, values of 1 or more clamp to `FP_ONE`, anything between is
/// divided by 2^16 (rounding down).
pub open spec fn spec_chan_of_q32(num: int) -> int {
    if num <= 0 {
        0
    } else if num >= 0x1_0000_0000 {
        65536
    } else {
        num / 65536
    }
}

pub proof fn lemma_chan_of_q32_bounds(num: int)
    ensures
        0 <= spec_chan_of_q32(num) <= 65536,
{
    if 0 < num < 0x1_0000_0000 {
        lemma_div_below(num, 65536, 65536);
    }
}

/// Saturating division taking a Q32 channel numerator to a Q16 channel.
pub fn chan_of_q32(num: i64) -> (r: u32)
    ensures
        r == spec_chan_of_q32(num as int),
        r <= 65536,
{
    if num <= 0 {
        0
    } else if num >= 0x1_0000_0000 {
        65536
    } else {
        let q: u64 = (num as u64) / 65536u64;
        proof {
            lemma_chan_of_q32_bounds(num as int);
        }
        q as u32
    }
}

/// Division of a signed value by a positive divisor, truncating toward zero
/// (the quotient of the absolute values, with the sign of the dividend).
pub open spec fn spec_sdiv(x: int, d: int) -> int
    recommends
        d >= 1,
{
    if x >= 0 {
        x / d
    } else {
        -((-x) / d)
    }
}

pub fn sdiv(x: i64, d: i64) -> (r: i64)
    requires
        d >= 1,
        x > i64::MIN,
    ensures
        r == spec_sdiv(x as int, d as int),
{
    if x >= 0 {
        let q: u64 = (x as u64) / (d as u64);
        proof {
            vstd::arithmetic::div_mod::lemma_div_nonincreasing(x as int, d as int);
        }
        q as i64
    } else {
        let n: i64 = -x;
        let q: u64 = (n as u64) / (d as u64);
        proof {
            vstd::arithmetic::div_mod::lemma_div_nonincreasing(n as int, d as int);
        }
        -(q as i64)
    }
}

/// A truncating signed division of a bounded value gives a bounded quotient.
pub proof fn lemma_sdiv_in_range(x: int, d: int, b: int)
    requires
        1 <= d,
        0 <= b,
        -(b * d) <= x <= b * d,
    ensures
        -b <= spec_sdiv(x, d) <= b,
{
    if x >= 0 {
        lemma_div_at_most(x, d, b);
    } else {
        lemma_div_at_most(-x, d, b);
    }
}

/// `y` is the integer cube root, in Q16, of the Q16 value `x`: the largest
/// integer whose cube does not exceed `x` scaled to Q48.
pub open spec fn is_cbrt_q16(x: int, y: int) -> bool {
    &&& 0 <= y
    &&& y * y * y <= x * 0x1_0000_0000
    &&& x * 0x1_0000_0000 < (y + 1) * (y + 1) * (y + 1)
}

/// The integer cube root in Q16; well defined by `lemma_cbrt_q16_unique`.
pub open spec fn spec_cbrt_q16(x: int) -> int {
    choose|y: int| is_cbrt_q16(x, y)
}

pub proof fn lemma_cube_increases(a: int, b: int)
    by (nonlinear_arith)
    requires
        0 <= a < b,
    ensures
        a * a * a < b * b * b,
{
}

pub proof fn lemma_cbrt_q16_unique(x: int, y1: int, y2: int)
    requires
        is_cbrt_q16(x, y1),
        is_cbrt_q16(x, y2),
    ensures
        y1 == y2,
{
    if y1 < y2 {
        lemma_cube_increases(y1 + 1, y2 + 1);
        assert((y1 + 1) * (y1 + 1) * (y1 + 1) <= y2 * y2 * y2) by (nonlinear_arith)
            requires
                0 <= y1 < y2,
        ;
    }
    if y2 < y1 {
        assert((y2 + 1) * (y2 + 1) * (y2 + 1) <= y1 * y1 * y1) by (nonlinear_arith)
            requires
                0 <= y2 < y1,
        ;
    }
}

/// Integer cube root of a Q16 value in [0, 1], by bisection.
pub fn cbrt_q16(x: u32) -> (y: u32)
    requires
        x <= 65536,
    ensures
        y <= 65536,
        is_cbrt_q16(x as int, y as int),
        y == spec_cbrt_q16(x as int),
{
    let target: u64 = (x as u64) * 0x1_0000_0000u64;
    let mut lo: u32 = 0;
    let mut hi: u32 = 65537;
    while hi - lo > 1
        invariant
            lo < hi <= 65537,
            x <= 65536,
            target == x * 0x1_0000_0000,
            (lo as int) * (lo as int) * (lo as int) <= target,
            target < (hi as int) * (hi as int) * (hi as int),
        decreases hi - lo,
    {
        let mid: u32 = lo + (hi - lo) / 2;
        proof {
            assert((mid as int) * (mid as int) <= 65536 * 65536 && (mid as int) * (mid as int) * (
            mid as int) <= 65536 * 65536 * 65536) by (nonlinear_arith)
                requires
                    0 <= mid <= 65536,
            ;
        }
        let cube: u64 = (mid as u64) * (mid as u64) * (mid as u64);
        if cube <= target {
            lo = mid;
        } else {
            hi = mid;
        }
    }
    proof {
        assert(is_cbrt_q16(x as int, lo as int));
        let w = choose|y: int| is_cbrt_q16(x as int, y);
        lemma_cbrt_q16_unique(x as int, lo as int, w);
    }
    lo
}

/// `y` is the integer fifth root, in Q16, of the Q16 value `x`: the largest
/// integer whose fifth power does not exceed `x` scaled by 2^64.
pub open spec fn is_root5_q16(x: int, y: int) -> bool {
    &&& 0 <= y
    &&& y * y * y * y * y <= x * 0x1_0000_0000_0000_0000
    &&& x * 0x1_0000_0000_0000_0000 < (y + 1) * (y + 1) * (y + 1) * (y + 1) * (y + 1)
}

/// The integer fifth root in Q16; well defined by `lemma_root5_q16_unique`.
pub open spec fn spec_root5_q16(x: int) -> int {
    choose|y: int| is_root5_q16(x, y)
}

pub proof fn lemma_root5_q16_unique(x: int, y1: int, y2: int)
    requires
        is_root5_q16(x, y1),
        is_root5_q16(x, y2),
    ensures
        y1 == y2,
{
    if y1 < y2 {
        assert((y1 + 1) * (y1 + 1) * (y1 + 1) * (y1 + 1) * (y1 + 1) <= y2 * y2 * y2 * y2 * y2)
            by (nonlinear_arith)
            requires
                0 <= y1 < y2,
        ;
    }
    if y2 < y1 {
        assert((y2 + 1) * (y2 + 1) * (y2 + 1) * (y2 + 1) * (y2 + 1) <= y1 * y1 * y1 * y1 * y1)
            by (nonlinear_arith)
            requires
                0 <= y2 < y1,
        ;
    }
}

/// Integer fifth root of a Q16 value in [0, 1], by bisection.
pub fn root5_q16(x: u32) -> (y: u32)
    requires
        x <= 65536,
    ensures
        y <= 65536,
        is_root5_q16(x as int, y as int),
        y == spec_root5_q16(x as int),
{
    let target: u128 = (x as u128) * 0x1_0000_0000_0000_0000u128;
    let mut lo: u32 = 0;
    let mut hi: u32 = 65537;
    while hi - lo > 1
        invariant
            lo < hi <= 65537,
            x <= 65536,
            target == x * 0x1_0000_0000_0000_0000,
            (lo as int) * (lo as int) * (lo as int) * (lo as int) * (lo as int) <= target,
            target < (hi as int) * (hi as int) * (hi as int) * (hi as int) * (hi as int),
        decreases hi - lo,
    {
        let mid: u32 = lo + (hi - lo) / 2;
        let m: u128 = mid as u128;
        proof {
            let mi = mid as int;
            assert(mi * mi <= 65536 * 65536 && mi * mi * mi <= 65536 * 65536 * 65536 && mi * mi * mi
                * mi <= 65536 * 65536 * 65536 * 65536 && mi * mi * mi * mi * mi <= 65536 * 65536
                * 65536 * 65536 * 65536) by (nonlinear_arith)
                requires
                    0 <= mi <= 65536,
            ;
        }
        let fifth: u128 = m * m * m * m * m;
        if fifth <= target {
            lo = mid;
        } else {
            hi = mid;
        }
    }
    proof {
        assert(is_root5_q16(x as int, lo as int));
        let w = choose|y: int| is_root5_q16(x as int, y);
        lemma_root5_q16_unique(x as int, lo as int, w);
    }
    lo
}

} // verus!
