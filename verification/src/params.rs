//! The six filter parameters and their declared bounds.
//!
//! A `FilterParams` is one point of the search space. Each field holds its
//! external value in tenths of a unit — the 0.1 quantization grid that makes
//! results reproducible — so `invert: 693` stands for `invert(69.3%)` and
//! `hue_rotate: 575` for 57.5 hue units (57.5 * 3.6 = 207 degrees).

use crate::fixed::lemma_div_at_most;
use vstd::prelude::*;

verus! {

/// One point of the search space: the ordered six-tuple
/// (invert, sepia, saturate, hue-rotate unit, brightness, contrast),
/// each value in tenths of its external unit.
#[derive(Clone, Copy, Debug, PartialEq, Eq, Structural)]
pub struct FilterParams {
    pub invert: u32,
    pub sepia: u32,
    pub saturate: u32,
    pub hue_rotate: u32,
    pub brightness: u32,
    pub contrast: u32,
}

/// The upper bound of parameter `i`, in tenths: invert, sepia and the
/// hue-rotate unit run to 100, saturate to 7500, brightness and contrast to
/// 200.
pub open spec fn spec_bound(i: int) -> int {
    if i == 2 {
        75000
    } else if i == 4 || i == 5 {
        2000
    } else {
        1000
    }
}

/// The value of parameter `i`.
pub open spec fn spec_param(p: FilterParams, i: int) -> int {
    if i == 0 {
        p.invert as int
    } else if i == 1 {
        p.sepia as int
    } else if i == 2 {
        p.saturate as int
    } else if i == 3 {
        p.hue_rotate as int
    } else if i == 4 {
        p.brightness as int
    } else {
        p.contrast as int
    }
}

/// `p` with parameter `i` replaced by `v`.
pub open spec fn spec_with_param(p: FilterParams, i: int, v: u32) -> FilterParams {
    if i == 0 {
        FilterParams { invert: v, ..p }
    } else if i == 1 {
        FilterParams { sepia: v, ..p }
    } else if i == 2 {
        FilterParams { saturate: v, ..p }
    } else if i == 3 {
        FilterParams { hue_rotate: v, ..p }
    } else if i == 4 {
        FilterParams { brightness: v, ..p }
    } else {
        FilterParams { contrast: v, ..p }
    }
}

impl FilterParams {
    /// Every parameter lies within its declared range.
    pub open spec fn in_bounds(&self) -> bool {
        forall|i: int| 0 <= i < 6 ==> 0 <= #[trigger] spec_param(*self, i) <= spec_bound(i)
    }

    pub open spec fn spec_zero() -> FilterParams {
        FilterParams { invert: 0, sepia: 0, saturate: 0, hue_rotate: 0, brightness: 0, contrast: 0 }
    }

    /// The all-zero parameter vector.
    pub fn zero() -> (p: FilterParams)
        ensures
            p == FilterParams::spec_zero(),
            p.in_bounds(),
    {
        let p = FilterParams {
            invert: 0,
            sepia: 0,
            saturate: 0,
            hue_rotate: 0,
            brightness: 0,
            contrast: 0,
        };
        proof {
            assert forall|i: int| 0 <= i < 6 implies 0 <= #[trigger] spec_param(p, i) <= spec_bound(i) by {}
        }
        p
    }

    /// The value of parameter `i`.
    pub fn value_at(&self, i: usize) -> (v: u32)
        requires
            i < 6,
        ensures
            v == spec_param(*self, i as int),
    {
        if i == 0 {
            self.invert
        } else if i == 1 {
            self.sepia
        } else if i == 2 {
            self.saturate
        } else if i == 3 {
            self.hue_rotate
        } else if i == 4 {
            self.brightness
        } else {
            self.contrast
        }
    }

    /// This point with parameter `i` replaced by `v`.
    pub fn with_value(&self, i: usize, v: u32) -> (p: FilterParams)
        requires
            i < 6,
        ensures
            p == spec_with_param(*self, i as int, v),
    {
        let mut p = *self;
        if i == 0 {
            p.invert = v;
        } else if i == 1 {
            p.sepia = v;
        } else if i == 2 {
            p.saturate = v;
        } else if i == 3 {
            p.hue_rotate = v;
        } else if i == 4 {
            p.brightness = v;
        } else {
            p.contrast = v;
        }
        p
    }
}

/// The upper bound of parameter `i`, in tenths.
pub fn bound_at(i: usize) -> (b: u32)
    requires
        i < 6,
    ensures
        b == spec_bound(i as int),
{
    if i == 2 {
        75000
    } else if i == 4 || i == 5 {
        2000
    } else {
        1000
    }
}

/// A value in tenths of a percent rescaled to a Q16 fraction
/// (1000 tenths = 100 percent = 1.0).
pub open spec fn spec_q16_of_tenths(t: int) -> int {
    (t * 8192) / 125
}

pub fn q16_of_tenths(t: u32) -> (v: u32)
    requires
        t <= 75000,
    ensures
        v == spec_q16_of_tenths(t as int),
        v <= 4915200,
        t <= 1000 ==> v <= 65536,
        t <= 2000 ==> v <= 131072,
{
    proof {
        lemma_div_at_most((t as int) * 8192, 125, 4915200);
        if t <= 1000 {
            lemma_div_at_most((t as int) * 8192, 125, 65536);
        }
        if t <= 2000 {
            lemma_div_at_most((t as int) * 8192, 125, 131072);
        }
    }
    (t * 8192) / 125
}

/// A hue value in tenths of a unit rescaled to Q16 degrees
/// (one unit = 3.6 degrees, so 1000 tenths = 360 degrees).
pub open spec fn spec_deg_of_tenths(t: int) -> int {
    (t * 589824) / 25
}

pub fn deg_of_tenths(t: u32) -> (v: i64)
    requires
        t <= 1000,
    ensures
        v == spec_deg_of_tenths(t as int),
        0 <= v <= 23592960,
{
    proof {
        lemma_div_at_most((t as int) * 589824, 25, 23592960);
    }
    let w: u64 = ((t as u64) * 589824) / 25;
    w as i64
}

} // verus!
