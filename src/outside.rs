//! The calls this library makes into outside crates: the random source and
//! the monotonic clock.
use rand::distributions::Distribution;
use vstd::prelude::*;

verus! {

#[verifier::external_type_specification]
#[verifier::external_body]
pub struct ExThreadRng(rand::rngs::ThreadRng);

#[verifier::external_type_specification]
#[verifier::external_body]
pub struct ExInstant(web_time::Instant);

/// Relies on rand::thread_rng: a handle to the thread-local random generator.
#[verifier::external_body]
pub(crate) fn thread_rng() -> rand::rngs::ThreadRng {
    rand::thread_rng()
}

/// Relies on rand's `Uniform::new_inclusive` and its `sample` for `i64`: a value
/// of the closed range `[lo, hi]` (it panics when `lo > hi`).
#[verifier::external_body]
pub(crate) fn sample_inclusive(rng: &mut rand::rngs::ThreadRng, lo: i64, hi: i64) -> (r: i64)
    requires
        lo <= hi,
    ensures
        lo <= r <= hi,
{
    rand::distributions::Uniform::new_inclusive(lo, hi).sample(rng)
}

/// Relies on web_time's `Instant::now`: the current reading of the monotonic clock.
#[verifier::external_body]
pub(crate) fn clock_now() -> web_time::Instant {
    web_time::Instant::now()
}

/// Relies on web_time's `Instant::elapsed`: the time since `origin`, here in
/// whole microseconds.
#[verifier::external_body]
pub(crate) fn micros_since(origin: &web_time::Instant) -> u64 {
    origin.elapsed().as_micros() as u64
}

} // verus!
