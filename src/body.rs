use crate::vector::{trunc_div, Vec2};
use crate::SCALE;
use vstd::prelude::*;

verus! {

/// Smallest raw radius sample, in thousandths of a world unit (1.0).
pub const MIN_RAW_RADIUS: i64 = 1_000;

/// Largest raw radius sample, in thousandths of a world unit (200.0).
pub const MAX_RAW_RADIUS: i64 = 200_000;

/// Largest magnitude of a raw velocity sample, in thousandths of a world unit
/// per second (150.0).
pub const MAX_RAW_SPEED: i64 = 150_000;

/// A derived radius is this divided by the raw radius sample: 400 world
/// units over a sample in thousandths, in nano-units.
pub const RADIUS_NUMERATOR: i64 = 400_000_000_000_000;

/// Largest radius a body may have, in nano-units (400 world units).
pub const MAX_RADIUS: i64 = 400_000_000_000;

/// One simulated body.
#[derive(Debug, Clone, Copy, PartialEq, Eq, Structural)]
pub struct Planet {
    /// Current location, in nano-units.
    pub position: Vec2,
    /// Constant velocity, in nano-units per microsecond.
    pub velocity: Vec2,
    /// Fixed radius, in nano-units.
    pub radius: i64,
}

impl Planet {
    /// A body's radius is positive and bounded.
    pub open spec fn wf(&self) -> bool {
        0 < self.radius <= MAX_RADIUS
    }

    pub fn new(position: Vec2, velocity: Vec2, radius: i64) -> (p: Planet)
        requires
            0 < radius <= MAX_RADIUS,
        ensures
            p == (Planet { position, velocity, radius }),
            p.wf(),
    {
        Planet { position, velocity, radius }
    }

    pub fn position(&self) -> (r: Vec2)
        ensures
            r == self.position,
    {
        self.position
    }

    pub fn velocity(&self) -> (r: Vec2)
        ensures
            r == self.velocity,
    {
        self.velocity
    }

    pub fn radius(&self) -> (r: i64)
        ensures
            r == self.radius,
    {
        self.radius
    }
}

/// The radius derived from a raw radius sample: the inverse of the sample,
/// so that small samples give large bodies.
pub open spec fn derived_radius(raw_radius: int) -> int {
    (RADIUS_NUMERATOR as int) / raw_radius
}

/// A velocity coordinate derived from a raw velocity sample (thousandths of
/// a world unit per second): the sample divided by half the radius, in
/// nano-units per microsecond, rounded toward zero.
pub open spec fn derived_speed(raw_speed: int, radius: int) -> int {
    trunc_div(2 * raw_speed * SCALE, radius)
}

/// The samples lie in the ranges that generation draws from.
pub open spec fn samples_in_range(raw_radius: int, raw_vx: int, raw_vy: int) -> bool {
    &&& MIN_RAW_RADIUS <= raw_radius <= MAX_RAW_RADIUS
    &&& -MAX_RAW_SPEED <= raw_vx <= MAX_RAW_SPEED
    &&& -MAX_RAW_SPEED <= raw_vy <= MAX_RAW_SPEED
}

/// The body generated from its five samples.
pub open spec fn generated(raw_radius: int, raw_vx: int, raw_vy: int, x: int, y: int) -> Planet {
    let r = derived_radius(raw_radius);
    Planet {
        position: Vec2 { x: x as i64, y: y as i64 },
        velocity: Vec2 {
            x: derived_speed(raw_vx, r) as i64,
            y: derived_speed(raw_vy, r) as i64,
        },
        radius: r as i64,
    }
}

proof fn lemma_derived_radius_bounds(raw_radius: int)
    requires
        MIN_RAW_RADIUS <= raw_radius <= MAX_RAW_RADIUS,
    ensures
        2 * SCALE <= derived_radius(raw_radius) <= MAX_RADIUS,
{
    vstd::arithmetic::div_mod::lemma_div_is_ordered_by_denominator(
        RADIUS_NUMERATOR as int,
        MIN_RAW_RADIUS as int,
        raw_radius,
    );
    vstd::arithmetic::div_mod::lemma_div_is_ordered_by_denominator(
        RADIUS_NUMERATOR as int,
        raw_radius,
        MAX_RAW_RADIUS as int,
    );
}

/// Builds one body from its samples: a raw radius, two raw velocity
/// coordinates and a position. The radius is the inverse of the raw radius
/// and the velocity is divided by half the radius, so that large bodies
/// move slowly.
pub fn generate_planet(raw_radius: i64, raw_vx: i64, raw_vy: i64, x: i64, y: i64) -> (p: Planet)
    requires
        samples_in_range(raw_radius as int, raw_vx as int, raw_vy as int),
    ensures
        p == generated(raw_radius as int, raw_vx as int, raw_vy as int, x as int, y as int),
        p.wf(),
        p.radius > 0,
        p.position == (Vec2 { x, y }),
{
    proof {
        lemma_derived_radius_bounds(raw_radius as int);
    }
    let radius: i64 = RADIUS_NUMERATOR / raw_radius;
    let velocity = Vec2::new(2 * raw_vx * SCALE, 2 * raw_vy * SCALE).div(radius);
    Planet { position: Vec2::new(x, y), velocity, radius }
}

} // verus!
