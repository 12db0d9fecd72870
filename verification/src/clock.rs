//! The two clocks of the standard library: the one that never runs backwards, for the
//! request rates, and the one of the calendar, for the times that are shown.

use std::time::{Duration, Instant, SystemTime};
use vstd::prelude::*;

verus! {

/// A moment on the clock that never runs backwards.
#[verifier::external_type_specification]
#[verifier::external_body]
pub struct ExInstant(Instant);

/// A moment on the calendar's clock.
#[verifier::external_type_specification]
#[verifier::external_body]
pub struct ExSystemTime(SystemTime);

/// Calls `Instant::now`. Nothing is known of the moment that comes back.
#[verifier::external_body]
pub(crate) fn instant_now() -> (now: Instant) {
    Instant::now()
}

/// Calls `Instant::elapsed`: the time since `start`, of which nothing is known.
#[verifier::external_body]
pub(crate) fn elapsed_since(start: &Instant) -> (elapsed: Duration) {
    start.elapsed()
}

/// Calls `Duration::as_nanos`. The span is not looked into, so nothing is known of the
/// number.
#[verifier::external_body]
pub(crate) fn duration_nanos(span: &Duration) -> (nanos: u128) {
    span.as_nanos()
}

/// Calls `SystemTime::now`. Nothing is known of the moment that comes back.
#[verifier::external_body]
pub(crate) fn system_now() -> (now: SystemTime) {
    SystemTime::now()
}

} // verus!
