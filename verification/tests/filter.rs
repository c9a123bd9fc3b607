//! End-to-end tests of the solver, the loss quality, the cache and the
//! serialized output.

use whiskers::cache::{css_filter, FilterCache};
use whiskers::models::RGB;
use whiskers::params::FilterParams;
use whiskers::solver::{solve, FilterResult};
use whiskers::FilterColor;

/// 1.0 in the Q32 loss scale.
const LOSS_ONE: u64 = 4_294_967_296;

/// The early-exit threshold: 0.01 in the Q32 loss scale.
const LOSS_GOOD: u64 = 42_949_673;

fn assert_in_bounds(values: &FilterParams) {
    assert!(values.invert <= 1000);
    assert!(values.sepia <= 1000);
    assert!(values.saturate <= 75000);
    assert!(values.hue_rotate <= 1000);
    assert!(values.brightness <= 2000);
    assert!(values.contrast <= 2000);
}

#[test]
fn test_oklab_conversion() {
    let color = FilterColor::new(255, 0, 0);
    let oklab = color.oklab();
    // Red in Oklab should have positive a (towards red) and positive b
    // (towards yellow); thresholds 0.5 and 0.1 in Q16.
    assert!(oklab.l > 32768); // Should have decent lightness
    assert!(oklab.a > 6553); // Should be strongly towards red
    assert!(oklab.b > 0); // Red has positive b
}

#[test]
fn test_repeated_output() {
    // Same color should produce identical results across multiple runs
    let color1 = FilterColor::new(210, 15, 57);
    let result1 = solve(color1);

    let color2 = FilterColor::new(210, 15, 57);
    let result2 = solve(color2);

    assert_eq!(result1.css(), result2.css());
    assert_eq!(result1.values, result2.values);
}

#[test]
fn test_low_loss() {
    // The solver should achieve a low loss for typical colors
    let color = FilterColor::new(210, 15, 57); // Catppuccin red
    let result = solve(color);

    // Loss should be reasonably low (good color match): below 1.0 in Q32
    assert!(result.loss < LOSS_ONE, "Loss {} is too high", result.loss);
}

#[test]
fn test_solved_values_for_red() {
    let result = solve(FilterColor::new(210, 15, 57));
    assert_eq!(
        result.values,
        FilterParams {
            invert: 460,
            sepia: 670,
            saturate: 49920,
            hue_rotate: 900,
            brightness: 735,
            contrast: 1377,
        }
    );
    assert_eq!(result.loss, 1_935_000);
    assert_eq!(
        result.css(),
        "invert(46%) sepia(67%) saturate(4992%) hue-rotate(324deg) brightness(74%) contrast(138%)"
    );
}

#[test]
fn test_bound_satisfaction() {
    for rgb in [(210u8, 15u8, 57u8), (239, 241, 245), (30, 102, 245), (64, 160, 43)] {
        let result = solve(FilterColor::new(rgb.0, rgb.1, rgb.2));
        assert_in_bounds(&result.values);
        // The whole reference corpus also solves to a visually close match.
        assert!(result.loss < LOSS_ONE, "Loss {} is too high", result.loss);
    }
}

#[test]
fn test_extremes_terminate() {
    // Pure black converges to all filters near identity with zero loss.
    let black = solve(FilterColor::new(0, 0, 0));
    assert_in_bounds(&black.values);
    assert!(black.loss < LOSS_GOOD);
    assert_eq!(black.values.invert, 0);
    assert_eq!(black.values.brightness, 1030);

    let white = solve(FilterColor::new(255, 255, 255));
    assert_in_bounds(&white.values);
    assert!(white.loss < LOSS_GOOD);
    assert_eq!(white.values.invert, 1000);
}

#[test]
fn test_formatting_exactness() {
    // values = [69.3, 15.0, 3742.4, 57.5, 122.0, 118.0] in tenths; each is
    // rounded to the nearest integer and the hue unit scaled by 3.6 first,
    // so 57.5 becomes hue-rotate(207deg).
    let result = FilterResult {
        values: FilterParams {
            invert: 693,
            sepia: 150,
            saturate: 37424,
            hue_rotate: 575,
            brightness: 1220,
            contrast: 1180,
        },
        loss: 0,
    };
    assert_eq!(
        result.css(),
        "invert(69%) sepia(15%) saturate(3742%) hue-rotate(207deg) brightness(122%) contrast(118%)"
    );
}

#[test]
fn test_css_of_zero_params() {
    let result = FilterResult {
        values: FilterParams {
            invert: 0,
            sepia: 0,
            saturate: 0,
            hue_rotate: 0,
            brightness: 0,
            contrast: 0,
        },
        loss: 0,
    };
    assert_eq!(
        result.css(),
        "invert(0%) sepia(0%) saturate(0%) hue-rotate(0deg) brightness(0%) contrast(0%)"
    );
}

#[test]
fn test_rounding_half_up() {
    let result = FilterResult {
        values: FilterParams {
            invert: 695,
            sepia: 694,
            saturate: 5,
            hue_rotate: 125,
            brightness: 1999,
            contrast: 2000,
        },
        loss: 0,
    };
    // 69.5 rounds up to 70, 69.4 down to 69; 12.5 units * 3.6 = 45 degrees.
    assert_eq!(
        result.css(),
        "invert(70%) sepia(69%) saturate(1%) hue-rotate(45deg) brightness(200%) contrast(200%)"
    );
}

#[test]
fn test_cache_correctness() {
    let mut cache = FilterCache::new();
    assert_eq!(cache.len(), 0);
    let red = RGB::new(210, 15, 57);
    let first = css_filter(&mut cache, &red);
    assert_eq!(cache.len(), 1);
    // The second call is answered from the cache and is identical.
    let second = css_filter(&mut cache, &red);
    assert_eq!(cache.len(), 1);
    assert_eq!(first, second);

    let other = RGB::new(64, 160, 43);
    let third = css_filter(&mut cache, &other);
    assert_eq!(cache.len(), 2);
    assert_ne!(first, third);
}

#[test]
fn test_css_filter_string() {
    let mut cache = FilterCache::new();
    let s = css_filter(&mut cache, &RGB::new(210, 15, 57));
    assert_eq!(
        s,
        "invert(46%) sepia(67%) saturate(4992%) hue-rotate(324deg) brightness(74%) contrast(138%)"
    );
}
