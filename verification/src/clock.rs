use std::time::Duration;
use std::time::Instant;
use vstd::prelude::*;

verus! {

/// `std::time::Instant`, a reading of the monotonic clock, opaque to the verifier.
#[verifier::external_type_specification]
#[verifier::external_body]
pub struct ExInstant(Instant);

/// Reads the monotonic clock through `std::time::Instant::now`.
/// Nothing is stated of the result: it is whatever the time is.
#[verifier::external_body]
pub(crate) fn instant_now() -> (now: Instant) {
    Instant::now()
}

/// How much time has passed since `origin`, through `std::time::Instant::elapsed`.
/// Nothing is stated of the result: it depends on the clock.
#[verifier::external_body]
pub(crate) fn instant_elapsed(origin: &Instant) -> (elapsed: Duration) {
    origin.elapsed()
}

/// The whole number of nanoseconds in a `Duration`, as `std::time::Duration::as_nanos`
/// computes it: a function of the duration alone.
pub uninterp spec fn duration_nanos(d: Duration) -> nat;

/// Whether `n` is the whole number of nanoseconds in some duration: what a
/// reading of a clock, taken as a `Duration` and counted in nanoseconds, is.
pub open spec fn is_duration_nanos(n: nat) -> bool {
    exists|d: Duration| #[trigger] duration_nanos(d) == n
}

/// The whole number of nanoseconds in `d`, through `std::time::Duration::as_nanos`.
/// The result is stated to be `duration_nanos(d)`; nothing more is said of that number.
#[verifier::external_body]
pub(crate) fn duration_as_nanos(d: &Duration) -> (nanos: u128)
    ensures
        nanos as nat == duration_nanos(*d),
{
    d.as_nanos()
}

} // verus!
