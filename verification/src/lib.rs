//! Per-tick simulation core of a vertical bullet-hell shooter.
//!
//! The world is advanced one discrete step at a time: player input and
//! movement, player-bullet/enemy collisions, scripted enemy-bullet motion,
//! enemy command interpretation (bullet spawning), and the fixed
//! death-animation choreography.
//!
//! All world quantities are fixed-point integers: one game unit is
//! [`fixed::SCALE`] steps, so `1.0` in engine terms is `1000` here. Times
//! are milliseconds, angles are millidegrees. Every contract is stated
//! exactly over this fixed-point model.

pub mod anime;
pub mod collide;
pub mod fixed;
pub mod script;
pub mod system;
pub mod transform;
pub mod trig;
pub mod world;

use vstd::prelude::*;

verus! {

/// Width of the playfield the player is clamped to, in fixed-point units.
pub const FIELD_WIDTH: i64 = 1_600_000;

/// Height of the playfield the player is clamped to, in fixed-point units.
pub const FIELD_HEIGHT: i64 = 900_000;

} // verus!
