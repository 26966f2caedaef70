//! Core of a Stroop-effect reaction game: a fixed five-entry colour palette,
//! a round generator that pairs a colour word with an unrelated ink colour,
//! per-tick target motion with miss detection, click hit-testing, and the
//! round-lifecycle state machine with countdown and score.
//!
//! Positions are integer milli-pixels and durations integer milliseconds, so
//! every rule of the game is stated and proved over exact arithmetic.

use vstd::prelude::*;

pub mod controller;
pub mod generate;
pub mod motion;
pub mod geometry;
pub mod hit;
pub mod palette;
pub mod rng;
pub mod round;

verus! {

/// Radius of an interactive target, in milli-pixels (20 pixels).
pub const CIRCLE_RADIUS: u64 = 20_000;

/// Largest radius a well-formed target may carry, in milli-pixels.
pub const MAX_RADIUS: u64 = 100_000;

/// Horizontal position every target starts a round at, in milli-pixels
/// (20 pixels left of the field).
pub const SPAWN_X: i64 = -20_000;

/// A round's shared speed offset is drawn below this scale and read as
/// thousandths: an offset of k makes the pace (1000 + k)/1000 of the base.
pub const OFFSET_SCALE: u64 = 1000;

} // verus!
