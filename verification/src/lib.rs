//! Simulation engine for a wrap-around ("toroidal") 2D arcade field: a
//! player ship, short-lived lasers and drifting asteroids move under fixed
//! delta-time integration, collide by circle tests, and drive a score/level
//! progression.
//!
//! All scalar quantities are fixed-point: an `i64` counts thousandths of a
//! unit (`FX` per unit).  Positions and velocities are [`utils::Vector`]s of
//! such scalars, durations are thousandths of a second, angles thousandths
//! of a degree.  Trigonometry never happens here: headings are resolved
//! through an injected [`heading::DirTable`] of 360 precomputed direction
//! vectors, one per whole degree, which the host computes once at startup.

use vstd::prelude::*;

pub mod components;
pub mod cooldown;
pub mod game;
pub mod heading;
pub mod trusted;
pub mod utils;

verus! {

/// Fixed-point scale: i64 values count 1/FX of a unit.
pub const FX: i64 = 1000;

/// Width of the playing field, in fixed-point units.
pub const VIEW_W: i64 = 1_024_000;

/// Height of the playing field, in fixed-point units.
pub const VIEW_H: i64 = 768_000;

/// A full turn, in fixed-point degrees.
pub const FULL_TURN: i64 = 360_000;

/// Fixed-point degrees per entry of a direction table.
pub const DEG_STEP: i64 = 1000;

/// A quarter turn, in fixed-point degrees.  Sprite artwork points up, so an
/// entity's forward heading is its stored rotation minus a quarter turn.
pub const QUARTER_TURN: i64 = 90_000;

/// 60 in fixed point: velocities are units-per-frame-at-60Hz, so real-time
/// integration multiplies by the delta-time and by this factor.
pub const FRAME_SCALE: i64 = 60_000;

/// Largest delta-time one simulation step accepts, in fixed-point seconds
/// (a quarter of an hour; real steps are a few milliseconds).
pub const MAX_DT: i64 = 1_000_000;

/// Cap on configured speeds, in fixed-point units per frame.
pub const MAX_SPEED: i64 = 1_000_000_000;

/// Cap on configured angular rates and thrust, in fixed-point per second.
pub const MAX_RATE: i64 = 1_000_000_000;

/// Cap on configured sprite scales, fixed-point.
pub const MAX_SCALE: i64 = 1_000_000;

/// Cap on configured spawn-offset magnitudes, in fixed-point units.
pub const MAX_MAG: i64 = 1_000_000_000;

/// Every entity position stays within this bound on both axes.
pub const POS_LIMIT: i64 = 200_000_000_000;

/// Coordinate bound under which the circle test cannot overflow.
pub const COORD_LIMIT: i64 = 1_000_000_000_000_000;

/// A configuration record was rejected at construction time; the simulation
/// itself never fails once built.
#[derive(Clone, Copy, Debug, PartialEq, Eq, Structural)]
pub enum ConfigError {
    InvalidShipConfig,
    InvalidLaserConfig,
    InvalidRoidConfig,
    InvalidGeneratorConfig,
    InvalidDirTable,
}

} // verus!
