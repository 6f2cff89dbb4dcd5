//! The monotonic clock, for toasts that expire and tooltips that wait.
use std::time::{Duration, Instant};
use vstd::prelude::*;

verus! {

#[verifier::external_type_specification]
#[verifier::external_body]
pub struct ExInstant(Instant);

/// `Instant` is `Copy`: its `Clone::clone` returns the same instant.
pub assume_specification[ <Instant as Clone>::clone ](i: &Instant) -> (r: Instant)
    ensures
        r == *i,
;

/// Reads the monotonic clock with `std::time::Instant::now`. The reading
/// depends on the time of the call, so nothing is promised of it.
#[verifier::external_body]
pub(crate) fn clock_now() -> Instant {
    Instant::now()
}

/// Time passed since `start`, by `std::time::Instant::elapsed`. It depends on
/// the clock, so nothing is promised of it.
#[verifier::external_body]
pub(crate) fn elapsed_since(start: &Instant) -> Duration {
    start.elapsed()
}

/// Whole milliseconds of a duration, by `std::time::Duration::as_millis`.
/// The duration is opaque here (it comes from the clock), so the result is
/// left unsaid.
#[verifier::external_body]
pub(crate) fn whole_millis(d: &Duration) -> u128 {
    d.as_millis()
}

/// Milliseconds since `start`, read from the clock.
pub(crate) fn millis_since(start: &Instant) -> u128 {
    let d = elapsed_since(start);
    whole_millis(&d)
}

} // verus!
