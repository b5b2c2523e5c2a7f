//! A verified core for a two-paddle, one-ball arcade game.
//!
//! The engine works on fixed-point coordinates: every position, size and
//! velocity component is an `i64` counting milli-units, where [`UNIT`]
//! (1000) milli-units make one screen unit (one pixel of the field).
//! Velocities are milli-units per millisecond, and a tick advances the
//! simulation by a whole number of milliseconds.  All contracts are stated
//! over an exact integer model of the simulation; divisions in that model
//! truncate toward zero, as the executable code does.

use vstd::prelude::*;

pub mod game;
pub mod laws;
pub mod math;
pub mod model;
pub mod structs;

verus! {

/// Milli-units per screen unit: the granularity of every coordinate.
pub const UNIT: i64 = 1000;

/// Largest magnitude the engine accepts for a coordinate, size, velocity
/// component or field dimension; keeps every product of the simulation
/// within `i64`/`i128` range.
pub const MAX_COORD: i64 = 100_000_000;

/// Largest elapsed time (milliseconds) accepted for one tick.
pub const MAX_DT: i64 = 1_000_000;

/// Largest coordinate magnitude the segment-intersection test accepts;
/// wide enough for any collider a tick within [`MAX_COORD`] and [`MAX_DT`]
/// can project, while its orientation products still fit an `i128`.
pub const MAX_GEOM: i64 = 1_000_000_000_000_000;

/// The AI accuracy scale: accuracy is given in thousandths, from 0 to
/// `MAX_ACCURACY` (meaning 1.0).
pub const MAX_ACCURACY: i64 = 1000;

} // verus!
