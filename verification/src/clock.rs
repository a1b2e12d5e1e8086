//! The two clocks that mining reads: the wall clock for a block's timestamp and
//! a monotonic one for how long the search took. Nothing is promised of what
//! they return.

use std::time::{Instant, UNIX_EPOCH};
use vstd::prelude::*;

verus! {

#[verifier::external_type_specification]
#[verifier::external_body]
pub struct ExInstant(std::time::Instant);

/// Calls `SystemTime::elapsed` on `UNIX_EPOCH`: the whole seconds from the Unix
/// epoch to now, or `None` where the system clock stands before the epoch.
/// Nothing is claimed of the number.
#[verifier::external_body]
pub(crate) fn unix_time() -> (seconds: Option<u64>) {
    match UNIX_EPOCH.elapsed() {
        Ok(since) => Some(since.as_secs()),
        Err(_) => None,
    }
}

/// Calls `Instant::now`. Nothing is claimed of the instant.
#[verifier::external_body]
pub(crate) fn stopwatch() -> (start: Instant) {
    Instant::now()
}

/// Calls `Instant::elapsed`: the milliseconds that passed since `start`.
/// Nothing is claimed of the number.
#[verifier::external_body]
pub(crate) fn millis_since(start: &Instant) -> (millis: u128) {
    start.elapsed().as_millis()
}

} // verus!
