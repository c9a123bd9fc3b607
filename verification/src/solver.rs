//! The multi-start constrained solver.
//!
//! The loss surface is non-convex with many local minima, so a single local
//! search is not enough. The solver walks a curated list of starting points,
//! one per typical hue region, and runs a derivative-free bounded compass
//! search from each: every round probes one step up and one step down in
//! each of the six parameters, moves to the best strict improvement, and
//! halves the step when none exists, from 100 tenths down to the 0.1 grid.
//! Each round costs 12 loss evaluations; with `LOCAL_ROUNDS` rounds plus the
//! seed evaluation a start stays within the fixed budget of about 3000
//! evaluations. The best result over all starts wins, and the remaining
//! starts are skipped once the loss falls below `GOOD_ENOUGH_LOSS`.
//!
//! Everything is integer arithmetic over the quantized grid, and every step
//! is pinned to a spec-level mirror, so the solver is a mathematical
//! function of the target color: determinism is `lemma_solve_deterministic`.

use crate::loss::{compute_loss, spec_loss, LOSS_CAP};
use crate::oklab::{spec_oklab, Lab};
use crate::params::{bound_at, spec_bound, spec_param, spec_with_param, FilterParams};
use vstd::prelude::*;

verus! {

/// First probe step of a local search, in tenths.
pub const STEP_START: u32 = 100;

/// Rounds of one local search; each round makes 12 loss evaluations, so this
/// keeps a start within the fixed budget of about 3000 evaluations.
pub const LOCAL_ROUNDS: u32 = 249;

/// A solve stops early once the best loss falls below this: 0.01 in the Q32
/// loss scale (a loss is below 0.01 exactly when it is below this integer).
pub const GOOD_ENOUGH_LOSS: u64 = 42949673;

/// The solver's outcome: the best parameter point found and its loss.
#[derive(Clone, Copy, Debug, PartialEq, Eq, Structural)]
pub struct FilterResult {
    /// The filter values (invert, sepia, saturate, hue-rotate, brightness,
    /// contrast), each in tenths of its external unit.
    pub values: FilterParams,
    /// Loss metric indicating how close the result is to the target, in Q32.
    pub loss: u64,
}

/// The curated starting point `k`, one per typical accent-hue region.
pub open spec fn spec_seed(k: int) -> FilterParams {
    if k == 0 {
        FilterParams { invert: 1000, sepia: 0, saturate: 5190, hue_rotate: 630, brightness: 1030, contrast: 800 }
    } else if k == 1 {
        FilterParams { invert: 1000, sepia: 0, saturate: 5320, hue_rotate: 370, brightness: 940, contrast: 770 }
    } else if k == 2 {
        FilterParams { invert: 690, sepia: 150, saturate: 37420, hue_rotate: 575, brightness: 1220, contrast: 1180 }
    } else if k == 3 {
        FilterParams { invert: 630, sepia: 710, saturate: 10100, hue_rotate: 577, brightness: 1100, contrast: 940 }
    } else if k == 4 {
        FilterParams { invert: 660, sepia: 830, saturate: 49970, hue_rotate: 900, brightness: 1570, contrast: 1490 }
    } else if k == 5 {
        FilterParams { invert: 700, sepia: 240, saturate: 5100, hue_rotate: 833, brightness: 1000, contrast: 820 }
    } else if k == 6 {
        FilterParams { invert: 480, sepia: 890, saturate: 20100, hue_rotate: 47, brightness: 1240, contrast: 1000 }
    } else if k == 7 {
        FilterParams { invert: 1000, sepia: 0, saturate: 5200, hue_rotate: 636, brightness: 1030, contrast: 790 }
    } else if k == 8 {
        FilterParams { invert: 870, sepia: 240, saturate: 5290, hue_rotate: 167, brightness: 970, contrast: 860 }
    } else if k == 9 {
        FilterParams { invert: 900, sepia: 240, saturate: 5210, hue_rotate: 292, brightness: 960, contrast: 850 }
    } else if k == 10 {
        FilterParams { invert: 810, sepia: 270, saturate: 5250, hue_rotate: 394, brightness: 1000, contrast: 840 }
    } else if k == 11 {
        FilterParams { invert: 760, sepia: 280, saturate: 5080, hue_rotate: 422, brightness: 950, contrast: 860 }
    } else if k == 12 {
        FilterParams { invert: 660, sepia: 320, saturate: 5180, hue_rotate: 494, brightness: 1000, contrast: 940 }
    } else {
        FilterParams { invert: 660, sepia: 190, saturate: 37490, hue_rotate: 558, brightness: 1170, contrast: 1130 }
    }
}

/// Probe `j` (parameter `j / 2`, up for even `j`, down for odd) of the point
/// `x` at the given step, clamped into the parameter's range.
pub open spec fn spec_probe(x: FilterParams, step: int, j: int) -> FilterParams {
    let i = j / 2;
    let cur = spec_param(x, i);
    if j % 2 == 0 {
        let v = if cur + step > spec_bound(i) {
            spec_bound(i)
        } else {
            cur + step
        };
        spec_with_param(x, i, v as u32)
    } else {
        let v = if cur < step {
            0
        } else {
            cur - step
        };
        spec_with_param(x, i, v as u32)
    }
}

/// The best point among `x` itself and its first `j` probes, with its loss;
/// on a tie the earlier candidate stays, and `x` beats every probe it ties.
pub open spec fn spec_best_probe(
    x: FilterParams,
    fx: int,
    step: int,
    t: (int, int, int),
    j: int,
) -> (FilterParams, int)
    decreases j,
{
    if j <= 0 {
        (x, fx)
    } else {
        let prev = spec_best_probe(x, fx, step, t, j - 1);
        let c = spec_probe(x, step, j - 1);
        let f = spec_loss(c, t);
        if f < prev.1 {
            (c, f)
        } else {
            prev
        }
    }
}

/// The compass search from `(x, fx)`: move to the best strictly improving
/// probe, else halve the step; stop when the step underflows the grid or the
/// round budget is spent.
pub open spec fn spec_search(
    x: FilterParams,
    fx: int,
    step: int,
    t: (int, int, int),
    fuel: nat,
) -> (FilterParams, int)
    decreases fuel,
{
    if fuel == 0 || step <= 0 {
        (x, fx)
    } else {
        let best = spec_best_probe(x, fx, step, t, 12);
        if best.1 < fx {
            spec_search(best.0, best.1, step, t, (fuel - 1) as nat)
        } else {
            spec_search(x, fx, step / 2, t, (fuel - 1) as nat)
        }
    }
}

/// One full local search from a starting point.
pub open spec fn spec_local_search(seed: FilterParams, t: (int, int, int)) -> (FilterParams, int) {
    spec_search(seed, spec_loss(seed, t), 100, t, 249)
}

/// The best result over the first `k` starting points, with early exit: once
/// the loss is good enough the remaining starts leave it untouched.
pub open spec fn spec_solve_upto(t: (int, int, int), k: int) -> (FilterParams, int)
    decreases k,
{
    if k <= 0 {
        (FilterParams::spec_zero(), 0xffff_ffff_ffff_ffff)
    } else {
        let prev = spec_solve_upto(t, k - 1);
        if prev.1 < 42949673 {
            prev
        } else {
            let r = spec_local_search(spec_seed(k - 1), t);
            if r.1 < prev.1 {
                r
            } else {
                prev
            }
        }
    }
}

/// The full solve against a target in Oklab coordinates.
pub open spec fn spec_solve(t: (int, int, int)) -> (FilterParams, int) {
    spec_solve_upto(t, 14)
}

/// The parameter point that solving for `target` returns.
pub open spec fn spec_solve_values(target: crate::color::FilterColor) -> FilterParams {
    spec_solve(spec_oklab(target.chans())).0
}

/// The loss that solving for `target` returns.
pub open spec fn spec_solve_loss(target: crate::color::FilterColor) -> int {
    spec_solve(spec_oklab(target.chans())).1
}

/// Replacing one parameter changes that parameter and nothing else.
pub proof fn lemma_with_param_sel(x: FilterParams, i: int, v: u32, k: int)
    requires
        0 <= i < 6,
        0 <= k < 6,
    ensures
        spec_param(spec_with_param(x, i, v), k) == if k == i {
            v as int
        } else {
            spec_param(x, k)
        },
{
}

/// A probe of an in-range point stays in range.
pub proof fn lemma_probe_in_bounds(x: FilterParams, step: int, j: int)
    requires
        x.in_bounds(),
        1 <= step,
        0 <= j < 12,
    ensures
        spec_probe(x, step, j).in_bounds(),
{
    let i = j / 2;
    let c = spec_probe(x, step, j);
    assert(0 <= i < 6);
    assert forall|k: int| 0 <= k < 6 implies 0 <= #[trigger] spec_param(c, k) <= spec_bound(k) by {
        let cur = spec_param(x, i);
        if j % 2 == 0 {
            let v = if cur + step > spec_bound(i) {
                spec_bound(i)
            } else {
                cur + step
            };
            lemma_with_param_sel(x, i, v as u32, k);
        } else {
            let v = if cur < step {
                0int
            } else {
                cur - step
            };
            lemma_with_param_sel(x, i, v as u32, k);
        }
    }
}

/// The running best over probes keeps its invariants: it is in range, its
/// loss really is its loss, and it never gets worse than the start.
pub proof fn lemma_best_probe_props(
    x: FilterParams,
    fx: int,
    step: int,
    t: (int, int, int),
    j: int,
)
    requires
        x.in_bounds(),
        fx == spec_loss(x, t),
        1 <= step,
        0 <= j <= 12,
    ensures
        spec_best_probe(x, fx, step, t, j).0.in_bounds(),
        spec_best_probe(x, fx, step, t, j).1 == spec_loss(spec_best_probe(x, fx, step, t, j).0, t),
        spec_best_probe(x, fx, step, t, j).1 <= fx,
    decreases j,
{
    if j > 0 {
        lemma_best_probe_props(x, fx, step, t, j - 1);
        lemma_probe_in_bounds(x, step, j - 1);
    }
}

/// The compass search keeps its invariants: the result is in range, its loss
/// really is its loss, and it never gets worse than the start.
pub proof fn lemma_search_props(
    x: FilterParams,
    fx: int,
    step: int,
    t: (int, int, int),
    fuel: nat,
)
    requires
        x.in_bounds(),
        fx == spec_loss(x, t),
        0 <= step,
    ensures
        spec_search(x, fx, step, t, fuel).0.in_bounds(),
        spec_search(x, fx, step, t, fuel).1 == spec_loss(spec_search(x, fx, step, t, fuel).0, t),
        spec_search(x, fx, step, t, fuel).1 <= fx,
    decreases fuel,
{
    if fuel > 0 && step > 0 {
        lemma_best_probe_props(x, fx, step, t, 12);
        let best = spec_best_probe(x, fx, step, t, 12);
        if best.1 < fx {
            lemma_search_props(best.0, best.1, step, t, (fuel - 1) as nat);
        } else {
            lemma_search_props(x, fx, step / 2, t, (fuel - 1) as nat);
        }
    }
}

/// Every curated starting point is in range.
pub proof fn lemma_seed_in_bounds(k: int)
    ensures
        spec_seed(k).in_bounds(),
{
    assert forall|i: int| 0 <= i < 6 implies 0 <= #[trigger] spec_param(spec_seed(k), i)
        <= spec_bound(i) by {}
}

/// Determinism: the solver's outcome is a function of the target alone, so
/// any two results that solve the same target are identical, and so are
/// their serialized filter strings.
pub proof fn lemma_solve_deterministic(
    target: crate::color::FilterColor,
    r1: FilterResult,
    r2: FilterResult,
)
    requires
        r1.values == spec_solve_values(target),
        r1.loss == spec_solve_loss(target),
        r2.values == spec_solve_values(target),
        r2.loss == spec_solve_loss(target),
    ensures
        r1 == r2,
        crate::css::spec_css(r1.values) == crate::css::spec_css(r2.values),
{
}

/// The curated starting point `k`.
fn seed_at(k: usize) -> (s: FilterParams)
    requires
        k < 14,
    ensures
        s == spec_seed(k as int),
        s.in_bounds(),
{
    proof {
        lemma_seed_in_bounds(k as int);
    }
    if k == 0 {
        FilterParams { invert: 1000, sepia: 0, saturate: 5190, hue_rotate: 630, brightness: 1030, contrast: 800 }
    } else if k == 1 {
        FilterParams { invert: 1000, sepia: 0, saturate: 5320, hue_rotate: 370, brightness: 940, contrast: 770 }
    } else if k == 2 {
        FilterParams { invert: 690, sepia: 150, saturate: 37420, hue_rotate: 575, brightness: 1220, contrast: 1180 }
    } else if k == 3 {
        FilterParams { invert: 630, sepia: 710, saturate: 10100, hue_rotate: 577, brightness: 1100, contrast: 940 }
    } else if k == 4 {
        FilterParams { invert: 660, sepia: 830, saturate: 49970, hue_rotate: 900, brightness: 1570, contrast: 1490 }
    } else if k == 5 {
        FilterParams { invert: 700, sepia: 240, saturate: 5100, hue_rotate: 833, brightness: 1000, contrast: 820 }
    } else if k == 6 {
        FilterParams { invert: 480, sepia: 890, saturate: 20100, hue_rotate: 47, brightness: 1240, contrast: 1000 }
    } else if k == 7 {
        FilterParams { invert: 1000, sepia: 0, saturate: 5200, hue_rotate: 636, brightness: 1030, contrast: 790 }
    } else if k == 8 {
        FilterParams { invert: 870, sepia: 240, saturate: 5290, hue_rotate: 167, brightness: 970, contrast: 860 }
    } else if k == 9 {
        FilterParams { invert: 900, sepia: 240, saturate: 5210, hue_rotate: 292, brightness: 960, contrast: 850 }
    } else if k == 10 {
        FilterParams { invert: 810, sepia: 270, saturate: 5250, hue_rotate: 394, brightness: 1000, contrast: 840 }
    } else if k == 11 {
        FilterParams { invert: 760, sepia: 280, saturate: 5080, hue_rotate: 422, brightness: 950, contrast: 860 }
    } else if k == 12 {
        FilterParams { invert: 660, sepia: 320, saturate: 5180, hue_rotate: 494, brightness: 1000, contrast: 940 }
    } else {
        FilterParams { invert: 660, sepia: 190, saturate: 37490, hue_rotate: 558, brightness: 1170, contrast: 1130 }
    }
}

/// One bounded compass search from a starting point.
fn local_search(seed: FilterParams, target: &Lab) -> (r: (FilterParams, u64))
    requires
        seed.in_bounds(),
        target.wf(),
    ensures
        r.0 == spec_local_search(seed, target.coords()).0,
        r.1 as int == spec_local_search(seed, target.coords()).1,
        r.0.in_bounds(),
        r.1 <= LOSS_CAP,
{
    let ghost t = target.coords();
    let mut x = seed;
    let mut fx = compute_loss(&seed, target);
    let mut step: u32 = STEP_START;
    let mut n: u32 = 0;
    while n < LOCAL_ROUNDS && step > 0
        invariant
            n <= LOCAL_ROUNDS,
            step <= 100,
            x.in_bounds(),
            target.wf(),
            t == target.coords(),
            fx as int == spec_loss(x, t),
            fx <= LOSS_CAP,
            spec_search(x, fx as int, step as int, t, (LOCAL_ROUNDS - n) as nat) == spec_search(
                seed,
                spec_loss(seed, t),
                100,
                t,
                249,
            ),
        decreases LOCAL_ROUNDS - n,
    {
        let ghost fx0 = fx as int;
        let ghost x0 = x;
        let ghost step0 = step as int;
        let mut bx = x;
        let mut bf = fx;
        let mut j: usize = 0;
        while j < 12
            invariant
                j <= 12,
                1 <= step <= 100,
                x.in_bounds(),
                bx.in_bounds(),
                target.wf(),
                t == target.coords(),
                fx as int == spec_loss(x, t),
                bf as int == spec_loss(bx, t),
                fx <= LOSS_CAP,
                bf <= LOSS_CAP,
                bx == spec_best_probe(x, fx as int, step as int, t, j as int).0,
                bf as int == spec_best_probe(x, fx as int, step as int, t, j as int).1,
            decreases 12 - j,
        {
            let i = j / 2;
            let cur = x.value_at(i);
            let b = bound_at(i);
            let v: u32 = if j % 2 == 0 {
                let w = cur + step;
                if w > b {
                    b
                } else {
                    w
                }
            } else {
                if cur < step {
                    0
                } else {
                    cur - step
                }
            };
            let cand = x.with_value(i, v);
            proof {
                assert(cand == spec_probe(x, step as int, j as int));
                lemma_probe_in_bounds(x, step as int, j as int);
            }
            let f = compute_loss(&cand, target);
            if f < bf {
                bx = cand;
                bf = f;
            }
            j = j + 1;
        }
        if bf < fx {
            x = bx;
            fx = bf;
        } else {
            step = step / 2;
        }
        n = n + 1;
        proof {
            assert(spec_search(x0, fx0, step0, t, (LOCAL_ROUNDS - (n - 1)) as nat) == spec_search(
                x,
                fx as int,
                step as int,
                t,
                (LOCAL_ROUNDS - n) as nat,
            ));
        }
    }
    (x, fx)
}

/// Solves for the filter parameters that turn black into the target color:
/// multi-start compass search over the quantized grid, best result wins,
/// early exit once the match is visually indistinguishable.
#[verifier::rlimit(60)]
pub fn solve(target: crate::color::FilterColor) -> (r: FilterResult)
    requires
        target.wf(),
    ensures
        r.values == spec_solve_values(target),
        r.loss as int == spec_solve_loss(target),
        r.values.in_bounds(),
        r.loss as int == spec_loss(r.values, spec_oklab(target.chans())),
        r.loss <= LOSS_CAP,
{
    let lab = target.oklab();
    let ghost t = lab.coords();
    let mut best_values = FilterParams::zero();
    let mut best_loss: u64 = 0xffff_ffff_ffff_ffff;
    let mut k: usize = 0;
    while k < 14
        invariant
            k <= 14,
            lab.wf(),
            t == lab.coords(),
            t == spec_oklab(target.chans()),
            best_values == spec_solve_upto(t, k as int).0,
            best_loss as int == spec_solve_upto(t, k as int).1,
            best_values.in_bounds(),
            k == 0 ==> best_loss == 0xffff_ffff_ffff_ffff,
            k >= 1 ==> (best_loss <= LOSS_CAP && best_loss as int == spec_loss(best_values, t)),
        decreases 14 - k,
    {
        if best_loss >= GOOD_ENOUGH_LOSS {
            let sd = seed_at(k);
            let r = local_search(sd, &lab);
            proof {
                lemma_search_props(sd, spec_loss(sd, t), 100, t, 249);
            }
            if r.1 < best_loss {
                best_values = r.0;
                best_loss = r.1;
            }
        }
        k = k + 1;
    }
    FilterResult { values: best_values, loss: best_loss }
}

} // verus!
