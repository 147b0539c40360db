//! Gameplay rules for a 2D arcade shooter: input interpretation, ship
//! movement, weapon cooldowns, projectile lifetimes, asteroid spawning and
//! fragmentation, collision classification, and play-field boundary
//! correction. Positions, velocities and timers are plain integers; the
//! surrounding engine (rendering, physics integration, input devices) is an
//! external collaborator.

pub mod asteroid;
pub mod bounds;
pub mod collision;
pub mod geom;
pub mod input;
pub mod projectile;
pub mod rng;
pub mod ship;
pub mod weapon;
pub mod world;

use vstd::prelude::*;

verus! {

/// Longest simulation tick the library accepts, in milliseconds. Keeps every
/// timer and impulse computation inside machine integer ranges.
pub const TICK_MS_LIMIT: u64 = 1_000_000;

/// Play-field half extent on the x axis.
pub const FIELD_HALF_WIDTH: i64 = 640;

/// Play-field half extent on the y axis.
pub const FIELD_HALF_HEIGHT: i64 = 360;

} // verus!
