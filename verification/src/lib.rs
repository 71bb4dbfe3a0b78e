//! Trajectory engine and controller for a mouse-pointer "quake" tool.
//!
//! The engine produces an infinite, periodic sequence of small relative
//! pointer displacements whose partial sums trace a closed geometric shape
//! (line, circle, star, square, figure-eight).  All geometry is carried out
//! in fixed-point arithmetic: one pixel is `PIXEL` (one million) units, so
//! every coordinate is an integer number of micro-pixels.
//!
//! The controller decides, tick by tick, whether to emit a displacement,
//! wait, or stop; the host program performs the actual injection, sleeping
//! and signal handling around it.

pub mod controller;
pub mod shape;
pub mod tables;
pub mod trajectory;

use vstd::prelude::*;

verus! {

/// Micro-pixel units per pixel: all coordinates are fixed-point with this
/// denominator.
pub const PIXEL: i64 = 1000000;

/// Micro-pixel units per half pixel.
pub const HALF_PIXEL: i64 = 500000;

/// Largest accepted pattern size, in whole pixels.
pub const MAX_SIZE: i64 = 1000000;

} // verus!
