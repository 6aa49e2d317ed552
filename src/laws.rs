//! Properties of the simulation step that hold across calls.
use crate::body::Planet;
use crate::sim::{advanced, contained, elapsed, small_step, step};
use vstd::prelude::*;

verus! {

/// A contained body that moves less than one extent plus its diameter along
/// each axis is contained again after one step.
pub proof fn step_keeps_body_contained(b: Planet, delta: nat)
    requires
        b.wf(),
        contained(b),
        small_step(b, delta),
    ensures
        contained(advanced(b, delta)),
{
}

/// Wraparound containment: when every body starts inside its band and moves
/// less than one extent plus its diameter, every body ends inside its band:
/// `[-r, WIDTH + r]` along x and `[-r, HEIGHT + r]` along y.
pub proof fn step_keeps_contained(bodies: Seq<Planet>, delta: nat)
    requires
        forall|i: int| 0 <= i < bodies.len() ==> (#[trigger] bodies[i]).wf(),
        forall|i: int| 0 <= i < bodies.len() ==> contained(#[trigger] bodies[i]),
        forall|i: int| 0 <= i < bodies.len() ==> small_step(#[trigger] bodies[i], delta),
    ensures
        step(bodies, delta).len() == bodies.len(),
        forall|i: int| 0 <= i < bodies.len() ==> contained(#[trigger] step(bodies, delta)[i]),
{
    assert forall|i: int| 0 <= i < bodies.len() implies contained(#[trigger] step(bodies, delta)[i]) by {
        step_keeps_body_contained(bodies[i], delta);
    }
}

/// A step of zero time leaves every contained body where it is.
pub proof fn zero_step_keeps_bodies(bodies: Seq<Planet>)
    requires
        forall|i: int| 0 <= i < bodies.len() ==> (#[trigger] bodies[i]).wf(),
        forall|i: int| 0 <= i < bodies.len() ==> contained(#[trigger] bodies[i]),
    ensures
        step(bodies, 0) == bodies,
{
    assert(step(bodies, 0) =~= bodies);
}

/// Clock regression: advancing to a time earlier than the last update moves
/// no contained body.
pub proof fn regression_keeps_bodies(bodies: Seq<Planet>, last: u64, now: u64)
    requires
        now < last,
        forall|i: int| 0 <= i < bodies.len() ==> (#[trigger] bodies[i]).wf(),
        forall|i: int| 0 <= i < bodies.len() ==> contained(#[trigger] bodies[i]),
    ensures
        step(bodies, elapsed(last, now)) == bodies,
{
    zero_step_keeps_bodies(bodies);
}

/// Zero-delta idempotence: advancing twice to the same time moves no body on
/// the second call, when the first step is small and starts from contained
/// bodies.
pub proof fn repeated_time_keeps_bodies(bodies: Seq<Planet>, last: u64, now: u64)
    requires
        forall|i: int| 0 <= i < bodies.len() ==> (#[trigger] bodies[i]).wf(),
        forall|i: int| 0 <= i < bodies.len() ==> contained(#[trigger] bodies[i]),
        forall|i: int| 0 <= i < bodies.len() ==> small_step(#[trigger] bodies[i], elapsed(last, now)),
    ensures
        step(step(bodies, elapsed(last, now)), elapsed(now, now)) == step(bodies, elapsed(last, now)),
{
    let first = step(bodies, elapsed(last, now));
    step_keeps_contained(bodies, elapsed(last, now));
    assert forall|i: int| 0 <= i < first.len() implies (#[trigger] first[i]).wf() by {
        assert(bodies[i].wf());
    }
    assert forall|i: int| 0 <= i < first.len() implies contained(#[trigger] first[i]) by {
        assert(contained(step(bodies, elapsed(last, now))[i]));
    }
    zero_step_keeps_bodies(first);
}

} // verus!
