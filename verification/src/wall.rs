//! The machine's monotonic clock, read as nanoseconds.
//!
//! Nothing is assumed about a reading: the playback clock and the transport
//! controller are verified for every value that may come back.

use std::time::{Duration, Instant};
use vstd::prelude::*;

verus! {

/// `std::time::Instant`, carried through as an opaque value.
#[verifier::external_type_specification]
#[verifier::external_body]
pub struct ExInstant(std::time::Instant);

/// Calls `Instant::now`. Nothing is claimed about the instant returned.
#[verifier::external_body]
fn instant_now() -> (instant: Instant) {
    Instant::now()
}

/// Calls `Instant::elapsed`. Nothing is claimed about the duration returned.
#[verifier::external_body]
fn instant_elapsed(origin: &Instant) -> (elapsed: Duration) {
    origin.elapsed()
}

/// Calls `Duration::as_nanos`. Nothing is claimed about the count returned.
#[verifier::external_body]
fn duration_nanos(duration: &Duration) -> (nanos: u128) {
    duration.as_nanos()
}

/// A monotonic wall clock whose readings count nanoseconds from the moment
/// it was started.
pub struct WallClock {
    origin: Instant,
}

impl WallClock {
    /// Starts a wall clock now.
    pub fn start() -> (wall: WallClock) {
        WallClock { origin: instant_now() }
    }

    /// Nanoseconds since the clock was started, as the machine reports them.
    pub fn reading(&self) -> (now: u128) {
        let elapsed = instant_elapsed(&self.origin);
        duration_nanos(&elapsed)
    }
}

} // verus!
