use crate::body::{
    generate_planet, generated, samples_in_range, Planet, MAX_RADIUS, MAX_RAW_RADIUS,
    MAX_RAW_SPEED, MIN_RAW_RADIUS,
};
use crate::outside::{clock_now, micros_since, sample_inclusive, thread_rng};
use crate::vector::Vec2;
use crate::{HEIGHT, NUM_PLANETS, WIDTH};
use vstd::prelude::*;

verus! {

/// Largest world extent along an axis that the wrap arithmetic admits.
const MAX_BOUND: i64 = 1_000_000_000_000_000;

/// `v` held to the range of `i64`.
pub open spec fn clamp_i64(v: int) -> int {
    if v > i64::MAX {
        i64::MAX as int
    } else if v < i64::MIN {
        i64::MIN as int
    } else {
        v
    }
}

/// One correction of a coordinate that left `[-r, bound + r]`: past the far
/// edge it moves back by `bound + 2r`, before the near edge forward by as much.
pub open spec fn wrap_axis(p: int, r: int, bound: int) -> int {
    let shifted = if p > bound + r {
        p - (bound + 2 * r)
    } else {
        p
    };
    if shifted < -r {
        shifted + (bound + 2 * r)
    } else {
        shifted
    }
}

/// Microseconds from `last` to `now`, or zero when the clock went back.
pub open spec fn elapsed(last: u64, now: u64) -> nat {
    if now > last {
        (now - last) as nat
    } else {
        0
    }
}

/// A coordinate after `delta` microseconds at speed `v`, wrapped once. A
/// position beyond the range of `i64` is held at its edge.
pub open spec fn moved_axis(p: int, v: int, delta: int, r: int, bound: int) -> int {
    wrap_axis(clamp_i64(p + v * delta), r, bound)
}

/// A body after `delta` microseconds: only its position changes.
pub open spec fn advanced(b: Planet, delta: nat) -> Planet {
    Planet {
        position: Vec2 {
            x: moved_axis(b.position.x as int, b.velocity.x as int, delta as int, b.radius as int, WIDTH as int) as i64,
            y: moved_axis(b.position.y as int, b.velocity.y as int, delta as int, b.radius as int, HEIGHT as int) as i64,
        },
        velocity: b.velocity,
        radius: b.radius,
    }
}

/// Every body of a population after `delta` microseconds, in the same order.
pub open spec fn step(bodies: Seq<Planet>, delta: nat) -> Seq<Planet> {
    bodies.map_values(|b: Planet| advanced(b, delta))
}

/// The body lies in `[-r, WIDTH + r] x [-r, HEIGHT + r]`.
pub open spec fn contained(b: Planet) -> bool {
    &&& -b.radius <= b.position.x <= WIDTH + b.radius
    &&& -b.radius <= b.position.y <= HEIGHT + b.radius
}

/// In `delta` microseconds the body moves along each axis by no more than
/// the extent plus its diameter, so that one wrap brings it back.
pub open spec fn small_step(b: Planet, delta: nat) -> bool {
    &&& -(WIDTH + 2 * b.radius) <= b.velocity.x * delta <= WIDTH + 2 * b.radius
    &&& -(HEIGHT + 2 * b.radius) <= b.velocity.y * delta <= HEIGHT + 2 * b.radius
}

fn wrap(p: i64, r: i64, bound: i64) -> (q: i64)
    requires
        0 < r <= MAX_RADIUS,
        0 < bound <= MAX_BOUND,
    ensures
        q == wrap_axis(p as int, r as int, bound as int),
{
    let span: i64 = bound + 2 * r;
    let mut q: i64 = p;
    if q > bound + r {
        q = q - span;
    }
    if q < -r {
        q = q + span;
    }
    q
}

fn advance_axis(p: i64, v: i64, delta: u64, r: i64, bound: i64) -> (q: i64)
    requires
        0 < r <= MAX_RADIUS,
        0 < bound <= MAX_BOUND,
    ensures
        q == moved_axis(p as int, v as int, delta as int, r as int, bound as int),
{
    proof {
        let (vi, di) = (v as int, delta as int);
        if vi >= 0 {
            assert(0 <= vi * di <= 0x7FFF_FFFF_FFFF_FFFF * 0xFFFF_FFFF_FFFF_FFFF) by (nonlinear_arith)
                requires
                    0 <= vi <= 0x7FFF_FFFF_FFFF_FFFF,
                    0 <= di <= 0xFFFF_FFFF_FFFF_FFFF,
            ;
        } else {
            assert(-0x8000_0000_0000_0000 * 0xFFFF_FFFF_FFFF_FFFF <= vi * di <= 0) by (nonlinear_arith)
                requires
                    -0x8000_0000_0000_0000 <= vi < 0,
                    0 <= di <= 0xFFFF_FFFF_FFFF_FFFF,
            ;
        }
    }
    let offset: i128 = (v as i128) * (delta as i128);
    let target: i128 = (p as i128) + offset;
    let held: i64 = if target > i64::MAX as i128 {
        i64::MAX
    } else if target < i64::MIN as i128 {
        i64::MIN
    } else {
        target as i64
    };
    wrap(held, r, bound)
}

fn advance_planet(b: Planet, delta: u64) -> (nb: Planet)
    requires
        b.wf(),
    ensures
        nb == advanced(b, delta as nat),
{
    let x = advance_axis(b.position.x, b.velocity.x, delta, b.radius, WIDTH);
    let y = advance_axis(b.position.y, b.velocity.y, delta, b.radius, HEIGHT);
    Planet { position: Vec2 { x, y }, velocity: b.velocity, radius: b.radius }
}

/// The population and the time of its last update.
pub struct State {
    planets: Vec<Planet>,
    origin: web_time::Instant,
    last_frame: u64,
}

impl State {
    /// The bodies, in the order they were added.
    pub closed spec fn bodies(&self) -> Seq<Planet> {
        self.planets@
    }

    /// Microseconds from the state's creation to its last update.
    pub closed spec fn last_update(&self) -> u64 {
        self.last_frame
    }

    /// Every body is well formed.
    pub open spec fn wf(&self) -> bool {
        forall|i: int| 0 <= i < self.bodies().len() ==> (#[trigger] self.bodies()[i]).wf()
    }

    /// An empty population whose clock starts now: its last update is at
    /// time zero.
    pub fn new() -> (s: State)
        ensures
            s.bodies() == Seq::<Planet>::empty(),
            s.last_update() == 0,
            s.wf(),
    {
        State { planets: Vec::new(), origin: clock_now(), last_frame: 0 }
    }

    /// Appends a body to the population.
    pub fn add_planet(&mut self, planet: Planet)
        requires
            old(self).wf(),
            planet.wf(),
        ensures
            final(self).bodies() == old(self).bodies().push(planet),
            final(self).last_update() == old(self).last_update(),
            final(self).wf(),
    {
        self.planets.push(planet);
        assert forall|i: int| 0 <= i < self.bodies().len() implies (#[trigger] self.bodies()[i]).wf() by {
            if i < old(self).bodies().len() {
                assert(self.bodies()[i] == old(self).bodies()[i]);
            }
        }
    }

    pub fn planets(&self) -> (r: &Vec<Planet>)
        ensures
            r@ == self.bodies(),
    {
        &self.planets
    }

    pub fn last_frame(&self) -> (r: u64)
        ensures
            r == self.last_update(),
    {
        self.last_frame
    }

    /// Moves every body by its velocity times the time elapsed since the last
    /// update (zero if `now` is earlier), wraps it once at the edges, and
    /// records `now` as the last update.
    pub fn advance(&mut self, now: u64)
        requires
            old(self).wf(),
        ensures
            final(self).wf(),
            final(self).bodies() == step(old(self).bodies(), elapsed(old(self).last_update(), now)),
            final(self).last_update() == now,
            final(self).bodies().len() == old(self).bodies().len(),
            forall|i: int|
                0 <= i < old(self).bodies().len() ==> {
                    &&& (#[trigger] final(self).bodies()[i]).velocity == old(self).bodies()[i].velocity
                    &&& final(self).bodies()[i].radius == old(self).bodies()[i].radius
                },
    {
        let delta: u64 = if now > self.last_frame {
            now - self.last_frame
        } else {
            0
        };
        self.last_frame = now;
        let ghost start = self.planets@;
        let n = self.planets.len();
        let mut i: usize = 0;
        while i < n
            invariant
                0 <= i <= n,
                n == start.len(),
                self.planets@.len() == n,
                self.last_frame == now,
                delta == elapsed(old(self).last_update(), now),
                start == old(self).bodies(),
                forall|j: int| 0 <= j < n ==> (#[trigger] start[j]).wf(),
                forall|j: int| 0 <= j < i ==> self.planets@[j] == advanced(start[j], delta as nat),
                forall|j: int| i <= j < n ==> self.planets@[j] == start[j],
            decreases n - i,
        {
            let b = self.planets[i];
            assert(start[i as int].wf());
            let nb = advance_planet(b, delta);
            self.planets[i] = nb;
            i += 1;
        }
        assert(self.planets@ =~= step(start, delta as nat));
    }

    /// Advances the population to the current reading of the clock.
    pub fn tick(&mut self)
        requires
            old(self).wf(),
        ensures
            final(self).wf(),
            final(self).bodies() == step(old(self).bodies(), elapsed(old(self).last_update(), final(self).last_update())),
    {
        let now = micros_since(&self.origin);
        self.advance(now);
    }
}

} // verus!

verus! {

/// The body comes from raw samples in the generation ranges.
pub open spec fn is_generated(b: Planet) -> bool {
    exists|raw_radius: int, raw_vx: int, raw_vy: int|
        #![trigger generated(raw_radius, raw_vx, raw_vy, b.position.x as int, b.position.y as int)]
        samples_in_range(raw_radius, raw_vx, raw_vy) && b == generated(
            raw_radius,
            raw_vx,
            raw_vy,
            b.position.x as int,
            b.position.y as int,
        )
}

/// A population of `NUM_PLANETS` bodies drawn from the thread's random
/// source, each placed uniformly inside the world, with its clock starting
/// now.
pub fn init_state() -> (s: State)
    ensures
        s.wf(),
        s.last_update() == 0,
        s.bodies().len() == NUM_PLANETS,
        forall|i: int|
            0 <= i < s.bodies().len() ==> {
                &&& 0 <= (#[trigger] s.bodies()[i]).position.x <= WIDTH
                &&& 0 <= s.bodies()[i].position.y <= HEIGHT
                &&& s.bodies()[i].radius > 0
                &&& is_generated(s.bodies()[i])
            },
{
    let mut rng = thread_rng();
    let mut state = State::new();
    let mut k: u32 = 0;
    while k < NUM_PLANETS
        invariant
            state.wf(),
            state.last_update() == 0,
            state.bodies().len() == k,
            k <= NUM_PLANETS,
            forall|i: int|
                0 <= i < state.bodies().len() ==> {
                    &&& 0 <= (#[trigger] state.bodies()[i]).position.x <= WIDTH
                    &&& 0 <= state.bodies()[i].position.y <= HEIGHT
                    &&& state.bodies()[i].radius > 0
                    &&& is_generated(state.bodies()[i])
                },
        decreases NUM_PLANETS - k,
    {
        let raw_radius = sample_inclusive(&mut rng, MIN_RAW_RADIUS, MAX_RAW_RADIUS);
        let raw_vx = sample_inclusive(&mut rng, -MAX_RAW_SPEED, MAX_RAW_SPEED);
        let raw_vy = sample_inclusive(&mut rng, -MAX_RAW_SPEED, MAX_RAW_SPEED);
        let x = sample_inclusive(&mut rng, 0, WIDTH);
        let y = sample_inclusive(&mut rng, 0, HEIGHT);
        let planet = generate_planet(raw_radius, raw_vx, raw_vy, x, y);
        assert(samples_in_range(raw_radius as int, raw_vx as int, raw_vy as int) && planet
            == generated(
            raw_radius as int,
            raw_vx as int,
            raw_vy as int,
            planet.position.x as int,
            planet.position.y as int,
        ));
        let ghost before = state.bodies();
        state.add_planet(planet);
        assert(forall|i: int| 0 <= i < before.len() ==> state.bodies()[i] == before[i]);
        assert(state.bodies()[k as int] == planet);
        k += 1;
    }
    state
}

} // verus!
