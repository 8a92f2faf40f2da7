//! A grid of rectangles that light up in a hue derived from cursor speed when
//! the mouse passes over them, then decay back to dark.
//!
//! All state is kept in fixed-point integers so that every step of the
//! per-tick update is verified:
//! - lengths (positions, sizes, distances) are milli-pixels (1000 per pixel),
//! - speeds are milli-pixels per millisecond,
//! - hues are milli-degrees (360_000 per full turn),
//! - excitement and lightness are micro-units (1_000_000 stands for 1.0).
//!
//! The windowing host is an unverified collaborator: each tick it supplies the
//! window's inner size, the mouse position and a monotonic clock reading, calls
//! [`update`](model::update), and rasterizes the commands that
//! [`render`](render::render) returns.

use vstd::prelude::*;

pub mod cell;
pub mod color;
pub mod isqrt;
pub mod laws;
pub mod mapping;
pub mod model;
pub mod render;
pub mod speed;

verus! {

/// Number of grid columns.
pub const RECT_COUNT_X: usize = 30;

/// Number of grid rows.
pub const RECT_COUNT_Y: usize = 30;

/// Total number of cells in the flat, row-major grid.
pub const CELL_COUNT: usize = 900;

/// Fixed-point scale: sub-units per pixel, per degree, per unit of speed.
pub const MILLI: u64 = 1000;

/// Excitement of exactly 1.0 in micro-units.
pub const EXCITE_ONE: u64 = 1000000;

/// A cell whose excitement decays below this (0.001) goes back to sleep.
pub const SLEEP_EPS: u64 = 1000;

/// Per tick, excitement keeps `DECAY_KEEP / DECAY_DEN` (98%) of its value.
pub const DECAY_KEEP: u64 = 98;

/// Denominator of the decay ratio.
pub const DECAY_DEN: u64 = 100;

/// Mouse speed of 1.0 pixels per millisecond, the normalization limit for
/// bonk excitement, in milli-units.
pub const SPEED_LIMIT_MILLI: u64 = 1000;

/// A full hue turn (360 degrees) in milli-degrees.
pub const COLOR_MAX_MILLI: u64 = 360000;

/// Largest magnitude of a mouse coordinate, in pixels, that a tick accepts.
pub const MAX_COORD: i64 = 1000000;

/// Largest window extent, in pixels, that a tick accepts.
pub const MAX_DIM: u64 = 1000000;

} // verus!
