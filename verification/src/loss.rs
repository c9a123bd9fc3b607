//! The perceptual loss: how far the filter chain, applied to black, lands
//! from the target color.
//!
//! The parameters arrive already on the 0.1 quantization grid (tenths), are
//! rescaled to the transforms' internal units, and run through the fixed
//! chain starting from black. The result is converted to Oklab and the loss
//! is the squared Euclidean distance to the target's Oklab coordinates,
//! scaled by 5000; since the coordinates are Q16, the loss is a Q32 value.

use crate::color::{
    spec_brightness, spec_contrast, spec_hue_rotate, spec_invert, spec_saturate, spec_sepia,
    FilterColor,
};
use crate::oklab::{spec_oklab, Lab};
use crate::params::{
    deg_of_tenths, q16_of_tenths, spec_deg_of_tenths, spec_param, spec_q16_of_tenths, FilterParams,
};
use vstd::prelude::*;

verus! {

/// Empirical scale that brings the squared Oklab distance into a numerically
/// convenient range for the solver's thresholds.
pub const LOSS_SCALE: u64 = 5000;

/// No loss value passes this cap (5000 * 3 * 400000^2).
pub const LOSS_CAP: u64 = 2_400_000_000_000_000;

/// The color that the filter chain, given by its six quantized parameters,
/// produces from pure black.
pub open spec fn spec_pipeline(p: FilterParams) -> (int, int, int) {
    spec_contrast(
        spec_brightness(
            spec_hue_rotate(
                spec_saturate(
                    spec_sepia(
                        spec_invert((0, 0, 0), spec_q16_of_tenths(p.invert as int)),
                        spec_q16_of_tenths(p.sepia as int),
                    ),
                    spec_q16_of_tenths(p.saturate as int),
                ),
                spec_deg_of_tenths(p.hue_rotate as int),
            ),
            spec_q16_of_tenths(p.brightness as int),
        ),
        spec_q16_of_tenths(p.contrast as int),
    )
}

/// The loss of a parameter point against a target given in Oklab
/// coordinates: 5000 times the squared Q16 distance. Opaque because callers
/// only ever reason about it through `compute_loss`.
#[verifier::opaque]
pub open spec fn spec_loss(p: FilterParams, t: (int, int, int)) -> int {
    let lab = spec_oklab(spec_pipeline(p));
    let dl = lab.0 - t.0;
    let da = lab.1 - t.1;
    let db = lab.2 - t.2;
    5000 * (dl * dl + da * da + db * db)
}

/// Runs the filter chain on black and measures the distance to the target.
pub fn compute_loss(p: &FilterParams, target: &Lab) -> (loss: u64)
    requires
        p.in_bounds(),
        target.wf(),
    ensures
        loss == spec_loss(*p, target.coords()),
        loss <= LOSS_CAP,
{
    proof {
        reveal(spec_loss);
        assert(spec_param(*p, 0) == p.invert as int);
        assert(spec_param(*p, 1) == p.sepia as int);
        assert(spec_param(*p, 2) == p.saturate as int);
        assert(spec_param(*p, 3) == p.hue_rotate as int);
        assert(spec_param(*p, 4) == p.brightness as int);
        assert(spec_param(*p, 5) == p.contrast as int);
    }
    let mut color = FilterColor::new(0, 0, 0);
    color.invert(q16_of_tenths(p.invert));
    color.sepia(q16_of_tenths(p.sepia));
    color.saturate(q16_of_tenths(p.saturate));
    color.hue_rotate(deg_of_tenths(p.hue_rotate));
    color.brightness(q16_of_tenths(p.brightness));
    color.contrast(q16_of_tenths(p.contrast));
    let lab = color.oklab();
    let dl: i64 = lab.l - target.l;
    let da: i64 = lab.a - target.a;
    let db: i64 = lab.b - target.b;
    proof {
        assert(0 <= (dl as int) * (dl as int) <= 160_000_000_000 && 0 <= (da as int) * (da as int)
            <= 160_000_000_000 && 0 <= (db as int) * (db as int) <= 160_000_000_000)
            by (nonlinear_arith)
            requires
                -400000 <= dl <= 400000,
                -400000 <= da <= 400000,
                -400000 <= db <= 400000,
        ;
    }
    let dist: i64 = dl * dl + da * da + db * db;
    LOSS_SCALE * (dist as u64)
}

} // verus!
