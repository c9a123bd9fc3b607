//! Deterministic CSS filter-chain solver.
//!
//! Given a target RGB color, the solver finds parameter values for the fixed
//! chain invert -> sepia -> saturate -> hue-rotate -> brightness -> contrast
//! such that applying the chain to pure black reproduces the target color as
//! closely as possible. All arithmetic is saturating fixed-point on integers,
//! so results are bit-identical across platforms and runs.

pub mod cache;
pub mod color;
pub mod css;
pub mod fixed;
pub mod loss;
pub mod markdown;
pub mod models;
pub mod oklab;
pub mod params;
pub mod solver;
pub mod trig;

pub use cache::{css_filter, FilterCache};
pub use color::FilterColor;
pub use markdown::TableDisplay;
pub use models::{default_hex_format, make_clippy_unhappy, rgb_to_ints, RGB};
pub use oklab::Lab;
pub use params::FilterParams;
pub use solver::{solve, FilterResult};
