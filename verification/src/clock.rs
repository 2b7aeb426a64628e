//! A monotonic clock that counts nanoseconds from the moment it was started.

use std::time::Duration;
use std::time::Instant;
use vstd::prelude::*;

verus! {

/// `Instant` of std: a reading of the monotonic clock. Nothing is known of
/// what a value holds.
#[verifier::external_type_specification]
#[verifier::external_body]
pub struct ExInstant(Instant);

/// `Instant::now` of std: the current reading of the monotonic clock. Nothing
/// is claimed of the value.
#[verifier::external_body]
fn instant_now() -> (now: Instant) {
    Instant::now()
}

/// `Instant::elapsed` of std: the time that went by since `origin` was read.
/// Nothing is claimed of the value.
#[verifier::external_body]
fn instant_elapsed(origin: &Instant) -> (elapsed: Duration) {
    origin.elapsed()
}

/// `Duration::as_nanos` of std: the whole duration in nanoseconds. Nothing is
/// claimed of the value.
#[verifier::external_body]
fn duration_as_nanos(duration: &Duration) -> (nanos: u128) {
    duration.as_nanos()
}

/// The largest reading a clock gives: later instants read as this value.
pub const CLOCK_MAX: u64 = 0xffff_ffff_ffff_ffff;

/// A clock that reads zero when it is started.
#[derive(Clone, Copy, Debug)]
pub struct Clock {
    origin: Instant,
}

impl Clock {
    /// Starts a clock at the current instant.
    pub fn start() -> (clock: Clock) {
        Clock { origin: instant_now() }
    }

    /// Nanoseconds since the clock was started. Which value comes back is up
    /// to the machine's clock.
    pub fn now(&self) -> (nanos: u64) {
        let elapsed = instant_elapsed(&self.origin);
        let nanos = duration_as_nanos(&elapsed);
        saturate(nanos)
    }
}

/// A nanosecond count cut off at `CLOCK_MAX`.
pub open spec fn saturated(nanos: u128) -> u64 {
    if nanos > CLOCK_MAX {
        CLOCK_MAX
    } else {
        nanos as u64
    }
}

/// Narrows a nanosecond count to 64 bits; counts beyond the range read as
/// `CLOCK_MAX`.
pub fn saturate(nanos: u128) -> (r: u64)
    ensures
        r == saturated(nanos),
{
    if nanos > CLOCK_MAX as u128 {
        CLOCK_MAX
    } else {
        nanos as u64
    }
}

} // verus!
