//! Conversion from the filter color to the perceptually uniform Oklab space,
//! entirely in fixed point.
//!
//! The standard conversion runs: undo the sRGB transfer curve on each
//! channel, mix into the LMS cone responses, take cube roots, and mix into
//! the three Oklab coordinates. The transfer curve's exponent 2.4 is computed
//! exactly on the grid as `t^2 * (t^2)^(1/5)` with the integer fifth root,
//! and the cube roots are integer cube roots, so the whole conversion is a
//! pure function on integers.

use crate::color::FilterColor;
use crate::fixed::{
    cbrt_q16, lemma_div_at_most, lemma_div_below, lemma_sdiv_in_range, root5_q16, sdiv,
    spec_cbrt_q16, spec_root5_q16, spec_sdiv,
};
use vstd::prelude::*;

verus! {

// Q16 images of the linear-sRGB to LMS matrix rows.
pub const LMS_L_R: i64 = 27015;

pub const LMS_L_G: i64 = 35149;

pub const LMS_L_B: i64 = 3372;

pub const LMS_M_R: i64 = 13887;

pub const LMS_M_G: i64 = 44610;

pub const LMS_M_B: i64 = 7038;

pub const LMS_S_R: i64 = 5787;

pub const LMS_S_G: i64 = 18463;

pub const LMS_S_B: i64 = 41286;

// Q16 images of the LMS-root to Oklab matrix rows (signs written out where
// the coefficients are applied).
pub const LAB_L_L: i64 = 13792;

pub const LAB_L_M: i64 = 52011;

pub const LAB_L_S: i64 = 267;

pub const LAB_A_L: i64 = 129630;

pub const LAB_A_M: i64 = 159160;

pub const LAB_A_S: i64 = 29530;

pub const LAB_B_L: i64 = 1698;

pub const LAB_B_M: i64 = 51300;

pub const LAB_B_S: i64 = 52997;

/// A color in the Oklab space, all three coordinates in Q16.
#[derive(Clone, Copy, Debug, PartialEq, Eq, Structural)]
pub struct Lab {
    pub l: i64,
    pub a: i64,
    pub b: i64,
}

impl Lab {
    /// Loose range that every coordinate of a converted color lies in; wide
    /// enough for the loss arithmetic, nothing more.
    pub open spec fn wf(&self) -> bool {
        &&& -200000 <= self.l <= 200000
        &&& -200000 <= self.a <= 200000
        &&& -200000 <= self.b <= 200000
    }

    /// The three coordinates as a mathematical triple.
    pub open spec fn coords(&self) -> (int, int, int) {
        (self.l as int, self.a as int, self.b as int)
    }
}

/// The sRGB transfer curve undone on one Q16 channel: `c / 12.92` below the
/// standard threshold, else `((c + 0.055) / 1.055) ^ 2.4`, where `t ^ 2.4`
/// is `t^2` times the fifth root of `t^2`.
pub open spec fn spec_srgb_linear(c: int) -> int {
    if c <= 2651 {
        (c * 25) / 323
    } else {
        let t = ((c + 3604) * 1000) / 1055;
        let t2 = (t * t) / 65536;
        let t04 = spec_root5_q16(t2);
        (t2 * t04) / 65536
    }
}

/// One LMS cone response: a nonnegative Q16 mix of the linear channels,
/// capped at one.
pub open spec fn spec_lms_mix(r: int, g: int, b: int, m0: int, m1: int, m2: int) -> int {
    let v = (r * m0 + g * m1 + b * m2) / 65536;
    if v > 65536 {
        65536
    } else {
        v
    }
}

/// The full conversion of a channel triple to Oklab coordinates.
pub open spec fn spec_oklab(c: (int, int, int)) -> (int, int, int) {
    let rl = spec_srgb_linear(c.0);
    let gl = spec_srgb_linear(c.1);
    let bl = spec_srgb_linear(c.2);
    let l3 = spec_cbrt_q16(spec_lms_mix(rl, gl, bl, LMS_L_R as int, LMS_L_G as int, LMS_L_B as int));
    let m3 = spec_cbrt_q16(spec_lms_mix(rl, gl, bl, LMS_M_R as int, LMS_M_G as int, LMS_M_B as int));
    let s3 = spec_cbrt_q16(spec_lms_mix(rl, gl, bl, LMS_S_R as int, LMS_S_G as int, LMS_S_B as int));
    (
        spec_sdiv(LAB_L_L * l3 + LAB_L_M * m3 - LAB_L_S * s3, 65536),
        spec_sdiv(LAB_A_L * l3 - LAB_A_M * m3 + LAB_A_S * s3, 65536),
        spec_sdiv(LAB_B_L * l3 + LAB_B_M * m3 - LAB_B_S * s3, 65536),
    )
}

/// The transfer curve undone on one channel.
fn srgb_linear(c: u32) -> (r: u32)
    requires
        c <= 65536,
    ensures
        r == spec_srgb_linear(c as int),
        r <= 65536,
{
    if c <= 2651 {
        proof {
            lemma_div_at_most(c * 25, 323, 65536);
        }
        (c * 25) / 323
    } else {
        proof {
            lemma_div_below((c + 3604) * 1000, 1055, 65536);
        }
        let t: u32 = ((c + 3604) * 1000) / 1055;
        proof {
            assert((t as int) * (t as int) < 65536 * 65536) by (nonlinear_arith)
                requires
                    0 <= t < 65536,
            ;
            lemma_div_below((t as int) * (t as int), 65536, 65536);
        }
        let t2: u32 = (((t as u64) * (t as u64)) / 65536) as u32;
        let t04: u32 = root5_q16(t2);
        proof {
            assert(0 <= (t2 as int) * (t04 as int) <= 65536 * 65536) by (nonlinear_arith)
                requires
                    0 <= t2 <= 65536,
                    0 <= t04 <= 65536,
            ;
            lemma_div_at_most((t2 as int) * (t04 as int), 65536, 65536);
        }
        (((t2 as u64) * (t04 as u64)) / 65536) as u32
    }
}

/// One LMS cone response from the linear channels.
fn lms_mix(r: u32, g: u32, b: u32, m0: i64, m1: i64, m2: i64) -> (v: u32)
    requires
        r <= 65536,
        g <= 65536,
        b <= 65536,
        0 <= m0 <= 65536,
        0 <= m1 <= 65536,
        0 <= m2 <= 65536,
    ensures
        v == spec_lms_mix(r as int, g as int, b as int, m0 as int, m1 as int, m2 as int),
        v <= 65536,
{
    proof {
        assert(0 <= (r as int) * (m0 as int) <= 65536 * 65536 && 0 <= (g as int) * (m1 as int)
            <= 65536 * 65536 && 0 <= (b as int) * (m2 as int) <= 65536 * 65536)
            by (nonlinear_arith)
            requires
                0 <= r <= 65536,
                0 <= g <= 65536,
                0 <= b <= 65536,
                0 <= m0 <= 65536,
                0 <= m1 <= 65536,
                0 <= m2 <= 65536,
        ;
        lemma_div_at_most(
            (r as int) * (m0 as int) + (g as int) * (m1 as int) + (b as int) * (m2 as int),
            65536,
            3 * 65536int,
        );
    }
    let sum: u64 = (r as u64) * (m0 as u64) + (g as u64) * (m1 as u64) + (b as u64) * (m2 as u64);
    let v: u64 = sum / 65536;
    if v > 65536 {
        65536
    } else {
        v as u32
    }
}

impl FilterColor {
    /// The color's Oklab coordinates.
    pub fn oklab(&self) -> (lab: Lab)
        requires
            self.wf(),
        ensures
            lab.wf(),
            lab.coords() == spec_oklab(self.chans()),
    {
        let rl = srgb_linear(self.r());
        let gl = srgb_linear(self.g());
        let bl = srgb_linear(self.b());
        let l3 = cbrt_q16(lms_mix(rl, gl, bl, LMS_L_R, LMS_L_G, LMS_L_B));
        let m3 = cbrt_q16(lms_mix(rl, gl, bl, LMS_M_R, LMS_M_G, LMS_M_B));
        let s3 = cbrt_q16(lms_mix(rl, gl, bl, LMS_S_R, LMS_S_G, LMS_S_B));
        let nl: i64 = LAB_L_L * (l3 as i64) + LAB_L_M * (m3 as i64) - LAB_L_S * (s3 as i64);
        let na: i64 = LAB_A_L * (l3 as i64) - LAB_A_M * (m3 as i64) + LAB_A_S * (s3 as i64);
        let nb: i64 = LAB_B_L * (l3 as i64) + LAB_B_M * (m3 as i64) - LAB_B_S * (s3 as i64);
        proof {
            lemma_sdiv_in_range(nl as int, 65536, 200000);
            lemma_sdiv_in_range(na as int, 65536, 200000);
            lemma_sdiv_in_range(nb as int, 65536, 200000);
        }
        Lab { l: sdiv(nl, 65536), a: sdiv(na, 65536), b: sdiv(nb, 65536) }
    }
}

} // verus!
