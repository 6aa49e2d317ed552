//! A field of circular bodies drifting at constant velocity over a toroidal
//! plane.
//!
//! All quantities are integers in fixed point: lengths in nano-units (one
//! world unit is `SCALE` of them), times in microseconds and velocities in
//! nano-units per microsecond.
use vstd::prelude::*;

pub mod body;
pub mod laws;
pub mod sim;
pub mod vector;
mod outside;

verus! {

/// Nano-units in one world unit.
pub const SCALE: i64 = 1_000_000_000;

/// Width of the world, in nano-units (4000 world units).
pub const WIDTH: i64 = 4_000_000_000_000;

/// Height of the world, in nano-units (4000 world units).
pub const HEIGHT: i64 = 4_000_000_000_000;

/// Number of bodies that `init_state` creates.
pub const NUM_PLANETS: u32 = 600;

} // verus!
