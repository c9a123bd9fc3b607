//! The fixed-point color model and the six filter transforms.
//!
//! A `FilterColor` holds three Q16 channels, each in [0, 1]. Every transform
//! mirrors the standard CSS filter matrices, computed with saturating integer
//! arithmetic only, so one input always gives one output on every platform.
//!
//! Matrix coefficients are built in Q32 so that a whole row of a matrix
//! application is a single Q48 numerator; `chan_of_q48` then clamps and
//! rescales it to a Q16 channel in one step.

use crate::fixed::{chan_of_q32, chan_of_q48, spec_chan_of_q32, spec_chan_of_q48};
use crate::trig::{cos_sin_deg, spec_cos_sin_deg};
use vstd::prelude::*;

verus! {

// Q16 images of the standard filter-matrix coefficients, named after the
// decimal coefficient they stand for (0.607 -> K607, and so on).
pub const K607: i64 = 39780;

pub const K769: i64 = 50397;

pub const K189: i64 = 12386;

pub const K349: i64 = 22872;

pub const K314: i64 = 20578;

pub const K168: i64 = 11010;

pub const K272: i64 = 17826;

pub const K534: i64 = 34996;

pub const K869: i64 = 56951;

pub const K787: i64 = 51577;

pub const K715: i64 = 46858;

pub const K072: i64 = 4719;

pub const K213: i64 = 13959;

pub const K285: i64 = 18678;

pub const K928: i64 = 60817;

pub const K143: i64 = 9372;

pub const K140: i64 = 9175;

pub const K283: i64 = 18547;

// Q32 images of the Rec. 709 luma coefficients.
pub const L213: i64 = 914828034;

pub const L715: i64 = 3070901617;

pub const L072: i64 = 309237645;

/// Every matrix coefficient handed to `multiply` stays within this bound
/// (saturation up to 75 times a Q32 unit, with room to spare).
pub const COEF_BOUND: i64 = 0x80_0000_0000;

/// Internal color for filter computation: three Q16 channels.
#[derive(Clone, Copy, Debug, PartialEq, Eq, Structural)]
pub struct FilterColor(pub u32, pub u32, pub u32);

/// One channel mixed by one matrix row, as a saturating Q48 -> Q16 step.
pub open spec fn spec_mix_chan(r: int, g: int, b: int, m0: int, m1: int, m2: int) -> int {
    spec_chan_of_q48(r * m0 + g * m1 + b * m2)
}

/// One shared matrix application: each new channel is the saturating mix of
/// the three old channels with one row of Q32 coefficients.
pub open spec fn spec_multiply(
    c: (int, int, int),
    m0: int,
    m1: int,
    m2: int,
    m3: int,
    m4: int,
    m5: int,
    m6: int,
    m7: int,
    m8: int,
) -> (int, int, int) {
    (
        spec_mix_chan(c.0, c.1, c.2, m0, m1, m2),
        spec_mix_chan(c.0, c.1, c.2, m3, m4, m5),
        spec_mix_chan(c.0, c.1, c.2, m6, m7, m8),
    )
}

/// `invert(v)` on one channel: `c * (1 - 2v) + v`, clamped to [0, 1].
pub open spec fn spec_invert_chan(c: int, v: int) -> int {
    spec_chan_of_q32(c * (65536 - 2 * v) + v * 65536)
}

pub open spec fn spec_invert(c: (int, int, int), v: int) -> (int, int, int) {
    (spec_invert_chan(c.0, v), spec_invert_chan(c.1, v), spec_invert_chan(c.2, v))
}

/// The classic sepia-tone matrix, interpolated from the identity by `v`.
pub open spec fn spec_sepia(c: (int, int, int), v: int) -> (int, int, int) {
    spec_multiply(
        c,
        0x1_0000_0000 - K607 * v,
        K769 * v,
        K189 * v,
        K349 * v,
        0x1_0000_0000 - K314 * v,
        K168 * v,
        K272 * v,
        K534 * v,
        0x1_0000_0000 - K869 * v,
    )
}

/// The saturation matrix over the Rec. 709 luma weights.
pub open spec fn spec_saturate(c: (int, int, int), v: int) -> (int, int, int) {
    spec_multiply(
        c,
        L213 + K787 * v,
        L715 - K715 * v,
        L072 - K072 * v,
        L213 - K213 * v,
        L715 + K285 * v,
        L072 - K072 * v,
        L213 - K213 * v,
        L715 - K715 * v,
        L072 + K928 * v,
    )
}

/// The hue-rotation matrix for an angle given in Q16 degrees; its sine and
/// cosine come from the shift-add rotation in `trig`.
pub open spec fn spec_hue_rotate(c: (int, int, int), deg: int) -> (int, int, int) {
    let (cs, sn) = spec_cos_sin_deg(deg);
    spec_multiply(
        c,
        L213 + K787 * cs - K213 * sn,
        L715 - K715 * cs - K715 * sn,
        L072 - K072 * cs + K928 * sn,
        L213 - K213 * cs + K143 * sn,
        L715 + K285 * cs + K140 * sn,
        L072 - K072 * cs - K283 * sn,
        L213 - K213 * cs - K787 * sn,
        L715 - K715 * cs + K715 * sn,
        L072 + K928 * cs + K072 * sn,
    )
}

/// A linear per-channel map `c * slope + intercept`, clamped to [0, 1]; the
/// intercept is given in Q32.
pub open spec fn spec_linear_chan(c: int, slope: int, icpt: int) -> int {
    spec_chan_of_q32(c * slope + icpt)
}

pub open spec fn spec_linear(c: (int, int, int), slope: int, icpt: int) -> (int, int, int) {
    (
        spec_linear_chan(c.0, slope, icpt),
        spec_linear_chan(c.1, slope, icpt),
        spec_linear_chan(c.2, slope, icpt),
    )
}

pub open spec fn spec_brightness(c: (int, int, int), v: int) -> (int, int, int) {
    spec_linear(c, v, 0)
}

/// `contrast(v)` scales around mid-gray: slope `v`, intercept `0.5 - 0.5 v`.
pub open spec fn spec_contrast(c: (int, int, int), v: int) -> (int, int, int) {
    spec_linear(c, v, (65536 - v) * 32768)
}

/// An 8-bit channel scaled into Q16.
pub open spec fn spec_chan_of_byte(x: int) -> int {
    x * 65536 / 255
}

impl FilterColor {
    /// Every channel lies in [0, 1].
    pub open spec fn wf(&self) -> bool {
        self.0 <= 65536 && self.1 <= 65536 && self.2 <= 65536
    }

    /// The three channels as a mathematical triple.
    pub open spec fn chans(&self) -> (int, int, int) {
        (self.0 as int, self.1 as int, self.2 as int)
    }

    pub fn new(r: u8, g: u8, b: u8) -> (c: Self)
        ensures
            c.wf(),
            c.chans() == (spec_chan_of_byte(r as int), spec_chan_of_byte(g as int), spec_chan_of_byte(b as int)),
    {
        proof {
            crate::fixed::lemma_div_at_most(r * 65536, 255, 65536);
            crate::fixed::lemma_div_at_most(g * 65536, 255, 65536);
            crate::fixed::lemma_div_at_most(b * 65536, 255, 65536);
        }
        FilterColor(
            (r as u32) * 65536 / 255,
            (g as u32) * 65536 / 255,
            (b as u32) * 65536 / 255,
        )
    }

    pub fn r(&self) -> (v: u32)
        ensures
            v == self.0,
    {
        self.0
    }

    pub fn g(&self) -> (v: u32)
        ensures
            v == self.1,
    {
        self.1
    }

    pub fn b(&self) -> (v: u32)
        ensures
            v == self.2,
    {
        self.2
    }

    /// Replaces the channels, clamping each into [0, 1].
    pub fn set_rgb(&mut self, r: u32, g: u32, b: u32)
        ensures
            final(self).wf(),
            final(self).chans() == (
                if r > 65536 { 65536int } else { r as int },
                if g > 65536 { 65536int } else { g as int },
                if b > 65536 { 65536int } else { b as int },
            ),
    {
        self.0 = if r > 65536 { 65536 } else { r };
        self.1 = if g > 65536 { 65536 } else { g };
        self.2 = if b > 65536 { 65536 } else { b };
    }

    /// One shared matrix application over Q32 coefficients `m0..m8`, row by
    /// row: `new_i = clamp(sum_j chan_j * m_(3i+j))`.
    #[allow(clippy::too_many_arguments)]
    pub fn multiply(
        &mut self,
        m0: i64,
        m1: i64,
        m2: i64,
        m3: i64,
        m4: i64,
        m5: i64,
        m6: i64,
        m7: i64,
        m8: i64,
    )
        requires
            old(self).wf(),
            -COEF_BOUND <= m0 <= COEF_BOUND,
            -COEF_BOUND <= m1 <= COEF_BOUND,
            -COEF_BOUND <= m2 <= COEF_BOUND,
            -COEF_BOUND <= m3 <= COEF_BOUND,
            -COEF_BOUND <= m4 <= COEF_BOUND,
            -COEF_BOUND <= m5 <= COEF_BOUND,
            -COEF_BOUND <= m6 <= COEF_BOUND,
            -COEF_BOUND <= m7 <= COEF_BOUND,
            -COEF_BOUND <= m8 <= COEF_BOUND,
        ensures
            final(self).wf(),
            final(self).chans() == spec_multiply(old(self).chans(), m0 as int, m1 as int, m2 as int, m3 as int, m4 as int, m5 as int, m6 as int, m7 as int, m8 as int),
    {
        let r = self.r();
        let g = self.g();
        let b = self.b();
        let new_r = mix_chan(r, g, b, m0, m1, m2);
        let new_g = mix_chan(r, g, b, m3, m4, m5);
        let new_b = mix_chan(r, g, b, m6, m7, m8);
        self.set_rgb(new_r, new_g, new_b);
    }

    pub fn invert(&mut self, v: u32)
        requires
            old(self).wf(),
            v <= 65536,
        ensures
            final(self).wf(),
            final(self).chans() == spec_invert(old(self).chans(), v as int),
    {
        let r = invert_chan(self.r(), v);
        let g = invert_chan(self.g(), v);
        let b = invert_chan(self.b(), v);
        self.set_rgb(r, g, b);
    }

    pub fn sepia(&mut self, v: u32)
        requires
            old(self).wf(),
            v <= 65536,
        ensures
            final(self).wf(),
            final(self).chans() == spec_sepia(old(self).chans(), v as int),
    {
        let w = v as i64;
        self.multiply(
            0x1_0000_0000 - K607 * w,
            K769 * w,
            K189 * w,
            K349 * w,
            0x1_0000_0000 - K314 * w,
            K168 * w,
            K272 * w,
            K534 * w,
            0x1_0000_0000 - K869 * w,
        );
    }

    pub fn saturate(&mut self, v: u32)
        requires
            old(self).wf(),
            v <= 4915200,
        ensures
            final(self).wf(),
            final(self).chans() == spec_saturate(old(self).chans(), v as int),
    {
        let w = v as i64;
        self.multiply(
            L213 + K787 * w,
            L715 - K715 * w,
            L072 - K072 * w,
            L213 - K213 * w,
            L715 + K285 * w,
            L072 - K072 * w,
            L213 - K213 * w,
            L715 - K715 * w,
            L072 + K928 * w,
        );
    }

    /// Rotates the hue by an angle given in Q16 degrees.
    pub fn hue_rotate(&mut self, deg: i64)
        requires
            old(self).wf(),
            0 <= deg <= 23592960,
        ensures
            final(self).wf(),
            final(self).chans() == spec_hue_rotate(old(self).chans(), deg as int),
    {
        let (cs, sn) = cos_sin_deg(deg);
        self.multiply(
            L213 + K787 * cs - K213 * sn,
            L715 - K715 * cs - K715 * sn,
            L072 - K072 * cs + K928 * sn,
            L213 - K213 * cs + K143 * sn,
            L715 + K285 * cs + K140 * sn,
            L072 - K072 * cs - K283 * sn,
            L213 - K213 * cs - K787 * sn,
            L715 - K715 * cs + K715 * sn,
            L072 + K928 * cs + K072 * sn,
        );
    }

    pub fn brightness(&mut self, v: u32)
        requires
            old(self).wf(),
            v <= 131072,
        ensures
            final(self).wf(),
            final(self).chans() == spec_brightness(old(self).chans(), v as int),
    {
        self.linear(v, 0);
    }

    pub fn contrast(&mut self, v: u32)
        requires
            old(self).wf(),
            v <= 131072,
        ensures
            final(self).wf(),
            final(self).chans() == spec_contrast(old(self).chans(), v as int),
    {
        self.linear(v, (65536 - (v as i64)) * 32768);
    }

    pub fn linear(&mut self, slope: u32, icpt: i64)
        requires
            old(self).wf(),
            slope <= 131072,
            -0x1_0000_0000 <= icpt <= 0x1_0000_0000,
        ensures
            final(self).wf(),
            final(self).chans() == spec_linear(old(self).chans(), slope as int, icpt as int),
    {
        let r = linear_chan(self.r(), slope, icpt);
        let g = linear_chan(self.g(), slope, icpt);
        let b = linear_chan(self.b(), slope, icpt);
        self.set_rgb(r, g, b);
    }
}

/// One channel of `invert`, as a saturating Q32 -> Q16 step.
fn invert_chan(c: u32, v: u32) -> (r: u32)
    requires
        c <= 65536,
        v <= 65536,
    ensures
        r == spec_invert_chan(c as int, v as int),
        r <= 65536,
{
    proof {
        assert((c as int) * (65536 - 2 * (v as int)) <= 65536 * 65536 && (c as int) * (65536 - 2 * (
        v as int)) >= -(65536 * 65536)) by (nonlinear_arith)
            requires
                0 <= c <= 65536,
                0 <= v <= 65536,
        ;
    }
    chan_of_q32((c as i64) * (65536 - 2 * (v as i64)) + (v as i64) * 65536)
}

/// One channel of `linear`, as a saturating Q32 -> Q16 step.
fn linear_chan(c: u32, slope: u32, icpt: i64) -> (r: u32)
    requires
        c <= 65536,
        slope <= 131072,
        -0x1_0000_0000 <= icpt <= 0x1_0000_0000,
    ensures
        r == spec_linear_chan(c as int, slope as int, icpt as int),
        r <= 65536,
{
    proof {
        assert(0 <= (c as int) * (slope as int) <= 65536 * 131072) by (nonlinear_arith)
            requires
                0 <= c <= 65536,
                0 <= slope <= 131072,
        ;
    }
    chan_of_q32((c as i64) * (slope as i64) + icpt)
}

/// One matrix row applied to the three channels, as a saturating Q48 -> Q16
/// step.
fn mix_chan(r: u32, g: u32, b: u32, m0: i64, m1: i64, m2: i64) -> (res: u32)
    requires
        r <= 65536,
        g <= 65536,
        b <= 65536,
        -COEF_BOUND <= m0 <= COEF_BOUND,
        -COEF_BOUND <= m1 <= COEF_BOUND,
        -COEF_BOUND <= m2 <= COEF_BOUND,
    ensures
        res == spec_mix_chan(r as int, g as int, b as int, m0 as int, m1 as int, m2 as int),
        res <= 65536,
{
    proof {
        assert(-(65536 * 0x80_0000_0000) <= (r as int) * (m0 as int) <= 65536 * 0x80_0000_0000)
            by (nonlinear_arith)
            requires
                0 <= r <= 65536,
                -0x80_0000_0000 <= m0 <= 0x80_0000_0000,
        ;
        assert(-(65536 * 0x80_0000_0000) <= (g as int) * (m1 as int) <= 65536 * 0x80_0000_0000)
            by (nonlinear_arith)
            requires
                0 <= g <= 65536,
                -0x80_0000_0000 <= m1 <= 0x80_0000_0000,
        ;
        assert(-(65536 * 0x80_0000_0000) <= (b as int) * (m2 as int) <= 65536 * 0x80_0000_0000)
            by (nonlinear_arith)
            requires
                0 <= b <= 65536,
                -0x80_0000_0000 <= m2 <= 0x80_0000_0000,
        ;
    }
    chan_of_q48((r as i64) * m0 + (g as i64) * m1 + (b as i64) * m2)
}

} // verus!
