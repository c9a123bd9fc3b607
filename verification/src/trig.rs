//! Deterministic sine and cosine for the hue-rotation matrix.
//!
//! Angles are handled in Q16 degrees. The core is an iterative shift-add
//! rotation: the vector (x, y) starts at the reciprocal of the rotation gain
//! and is turned through the fixed sequence of angles `arctan(2^-i)`, each
//! step only shifting and adding, so no native trigonometric primitive is
//! needed and the result is identical on every platform. The driver first
//! folds the angle from [0, 360] degrees into [-90, 90] and fixes the sign of
//! the cosine afterwards.

use crate::fixed::{sdiv, spec_sdiv};
use vstd::prelude::*;

verus! {

/// `arctan(2^-i)` in Q16 degrees, for the rotation step `i`.
pub open spec fn spec_arctan_entry(i: int) -> int {
    if i == 0 {
        2949120
    } else if i == 1 {
        1740967
    } else if i == 2 {
        919879
    } else if i == 3 {
        466945
    } else if i == 4 {
        234379
    } else if i == 5 {
        117304
    } else if i == 6 {
        58666
    } else if i == 7 {
        29335
    } else if i == 8 {
        14668
    } else if i == 9 {
        7334
    } else if i == 10 {
        3667
    } else if i == 11 {
        1833
    } else if i == 12 {
        917
    } else if i == 13 {
        458
    } else if i == 14 {
        229
    } else if i == 15 {
        115
    } else if i == 16 {
        57
    } else if i == 17 {
        29
    } else if i == 18 {
        14
    } else {
        7
    }
}

/// `2^i` for the rotation step `i`; dividing by it is the arithmetic shift of
/// the shift-add rotation.
pub open spec fn spec_shift_entry(i: int) -> int {
    if i <= 0 {
        1
    } else if i == 1 {
        2
    } else if i == 2 {
        4
    } else if i == 3 {
        8
    } else if i == 4 {
        16
    } else if i == 5 {
        32
    } else if i == 6 {
        64
    } else if i == 7 {
        128
    } else if i == 8 {
        256
    } else if i == 9 {
        512
    } else if i == 10 {
        1024
    } else if i == 11 {
        2048
    } else if i == 12 {
        4096
    } else if i == 13 {
        8192
    } else if i == 14 {
        16384
    } else if i == 15 {
        32768
    } else if i == 16 {
        65536
    } else if i == 17 {
        131072
    } else if i == 18 {
        262144
    } else {
        524288
    }
}

fn shift_entry(i: u32) -> (p: i64)
    requires
        i < 20,
    ensures
        p == spec_shift_entry(i as int),
        1 <= p <= 524288,
{
    if i == 0 {
        1
    } else if i == 1 {
        2
    } else if i == 2 {
        4
    } else if i == 3 {
        8
    } else if i == 4 {
        16
    } else if i == 5 {
        32
    } else if i == 6 {
        64
    } else if i == 7 {
        128
    } else if i == 8 {
        256
    } else if i == 9 {
        512
    } else if i == 10 {
        1024
    } else if i == 11 {
        2048
    } else if i == 12 {
        4096
    } else if i == 13 {
        8192
    } else if i == 14 {
        16384
    } else if i == 15 {
        32768
    } else if i == 16 {
        65536
    } else if i == 17 {
        131072
    } else if i == 18 {
        262144
    } else {
        524288
    }
}

fn arctan_entry(i: u32) -> (a: i64)
    requires
        i < 20,
    ensures
        a == spec_arctan_entry(i as int),
        0 < a <= 2949120,
{
    if i == 0 {
        2949120
    } else if i == 1 {
        1740967
    } else if i == 2 {
        919879
    } else if i == 3 {
        466945
    } else if i == 4 {
        234379
    } else if i == 5 {
        117304
    } else if i == 6 {
        58666
    } else if i == 7 {
        29335
    } else if i == 8 {
        14668
    } else if i == 9 {
        7334
    } else if i == 10 {
        3667
    } else if i == 11 {
        1833
    } else if i == 12 {
        917
    } else if i == 13 {
        458
    } else if i == 14 {
        229
    } else if i == 15 {
        115
    } else if i == 16 {
        57
    } else if i == 17 {
        29
    } else if i == 18 {
        14
    } else {
        7
    }
}

/// Clamp of an intermediate rotation coordinate; the bound is far above any
/// value the rotation can reach, so it only serves the overflow argument.
pub open spec fn spec_coord_clamp(v: int) -> int {
    if v < -262144 {
        -262144
    } else if v > 262144 {
        262144
    } else {
        v
    }
}

/// Clamp of a finished sine or cosine into [-1, 1] in Q16.
pub open spec fn spec_unit_clamp(v: int) -> int {
    if v < -65536 {
        -65536
    } else if v > 65536 {
        65536
    } else {
        v
    }
}

/// The state of the shift-add rotation from step `i` on: `x` and `y` are the
/// rotating vector, `z` the remaining angle.
pub open spec fn spec_rotation(x: int, y: int, z: int, i: int) -> (int, int, int)
    decreases 20 - i,
{
    if i >= 20 {
        (x, y, z)
    } else {
        let p = spec_shift_entry(i);
        let a = spec_arctan_entry(i);
        if z >= 0 {
            spec_rotation(
                spec_coord_clamp(x - spec_sdiv(y, p)),
                spec_coord_clamp(y + spec_sdiv(x, p)),
                z - a,
                i + 1,
            )
        } else {
            spec_rotation(
                spec_coord_clamp(x + spec_sdiv(y, p)),
                spec_coord_clamp(y - spec_sdiv(x, p)),
                z + a,
                i + 1,
            )
        }
    }
}

/// Cosine and sine of an angle in [-90, 90] Q16 degrees.
pub open spec fn spec_cos_sin_core(z0: int) -> (int, int) {
    let (x, y, z) = spec_rotation(39797, 0, z0, 0);
    (spec_unit_clamp(x), spec_unit_clamp(y))
}

/// Cosine and sine, in Q16, of an angle in [0, 360] Q16 degrees: the angle is
/// folded into [-90, 90] and the sign of the cosine restored.
pub open spec fn spec_cos_sin_deg(deg: int) -> (int, int) {
    let z = if deg > 11796480 {
        deg - 23592960
    } else {
        deg
    };
    if z > 5898240 {
        let (c, s) = spec_cos_sin_core(11796480 - z);
        (-c, s)
    } else if z < -5898240 {
        let (c, s) = spec_cos_sin_core(-11796480 - z);
        (-c, s)
    } else {
        spec_cos_sin_core(z)
    }
}

fn coord_clamp(v: i64) -> (r: i64)
    requires
        -0x10_0000 <= v <= 0x10_0000,
    ensures
        r == spec_coord_clamp(v as int),
        -262144 <= r <= 262144,
{
    if v < -262144 {
        -262144
    } else if v > 262144 {
        262144
    } else {
        v
    }
}

/// The shift-add rotation on an angle already folded into [-90, 90] degrees.
fn cos_sin_core(z0: i64) -> (r: (i64, i64))
    requires
        -5898240 <= z0 <= 5898240,
    ensures
        r.0 == spec_cos_sin_core(z0 as int).0,
        r.1 == spec_cos_sin_core(z0 as int).1,
        -65536 <= r.0 <= 65536,
        -65536 <= r.1 <= 65536,
{
    let mut x: i64 = 39797;
    let mut y: i64 = 0;
    let mut z: i64 = z0;
    let mut i: u32 = 0;
    while i < 20
        invariant
            i <= 20,
            -262144 <= x <= 262144,
            -262144 <= y <= 262144,
            -0x700000 <= z <= 0x700000,
            spec_rotation(x as int, y as int, z as int, i as int) == spec_rotation(
                39797,
                0,
                z0 as int,
                0,
            ),
        decreases 20 - i,
    {
        let a = arctan_entry(i);
        let p = shift_entry(i);
        let dx = sdiv(y, p);
        let dy = sdiv(x, p);
        proof {
            crate::fixed::lemma_sdiv_in_range(y as int, p as int, 262144);
            crate::fixed::lemma_sdiv_in_range(x as int, p as int, 262144);
        }
        if z >= 0 {
            let nx = coord_clamp(x - dx);
            let ny = coord_clamp(y + dy);
            x = nx;
            y = ny;
            z = z - a;
        } else {
            let nx = coord_clamp(x + dx);
            let ny = coord_clamp(y - dy);
            x = nx;
            y = ny;
            z = z + a;
        }
        i = i + 1;
    }
    let c = if x < -65536 {
        -65536i64
    } else if x > 65536 {
        65536i64
    } else {
        x
    };
    let s = if y < -65536 {
        -65536i64
    } else if y > 65536 {
        65536i64
    } else {
        y
    };
    (c, s)
}

/// Cosine and sine, in Q16, of an angle given in [0, 360] Q16 degrees.
pub fn cos_sin_deg(deg: i64) -> (r: (i64, i64))
    requires
        0 <= deg <= 23592960,
    ensures
        r.0 == spec_cos_sin_deg(deg as int).0,
        r.1 == spec_cos_sin_deg(deg as int).1,
        -65536 <= r.0 <= 65536,
        -65536 <= r.1 <= 65536,
{
    let z: i64 = if deg > 11796480 {
        deg - 23592960
    } else {
        deg
    };
    if z > 5898240 {
        let (c, s) = cos_sin_core(11796480 - z);
        (-c, s)
    } else if z < -5898240 {
        let (c, s) = cos_sin_core(-11796480 - z);
        (-c, s)
    } else {
        cos_sin_core(z)
    }
}

} // verus!
