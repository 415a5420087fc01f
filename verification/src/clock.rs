use std::time::{Duration, Instant};
use vstd::prelude::*;

verus! {

/// A point on the monotonic clock of std. Nothing is known of the value inside
/// it.
#[verifier::external_type_specification]
#[verifier::external_body]
pub struct ExInstant(Instant);

/// The length of a duration in nanoseconds: what `Duration::as_nanos` returns.
pub uninterp spec fn nanoseconds(duration: Duration) -> nat;

/// Calls `Instant::now`. Nothing is claimed of the instant.
#[verifier::external_body]
pub(crate) fn now() -> Instant {
    Instant::now()
}

/// Calls `Instant::elapsed`: the time that has passed since `start`. Nothing is
/// claimed of it.
#[verifier::external_body]
pub(crate) fn elapsed_since(start: &Instant) -> Duration {
    start.elapsed()
}

/// Calls `Duration::as_nanos`, which returns the whole duration in
/// nanoseconds.
#[verifier::external_body]
pub(crate) fn as_nanoseconds(duration: &Duration) -> (nanos: u128)
    ensures
        nanos == nanoseconds(*duration),
{
    duration.as_nanos()
}

} // verus!
