//! The clock of the state machine.

use std::time::SystemTime;
use tokio::time::Instant;
use vstd::prelude::*;

verus! {

/// A reading of tokio's monotonic clock. It can only be compared with other readings, so
/// the state machine works on the time that has passed since one of them.
#[verifier::external_type_specification]
#[verifier::external_body]
pub struct ExInstant(tokio::time::Instant);

/// Calls `tokio::time::Instant::now`. Nothing is promised of the reading.
#[verifier::external_body]
fn read_instant() -> Instant {
    Instant::now()
}

/// Calls `tokio::time::Instant::elapsed`, and gives the time in nanoseconds. Nothing is
/// promised of it: it depends on when the call is made.
#[verifier::external_body]
fn nanoseconds_since(start: &Instant) -> u128 {
    start.elapsed().as_nanos()
}

/// Counts nanoseconds from the moment at which it was started.
pub struct Clock {
    start: Instant,
}

impl Clock {
    /// A clock that starts now. Nothing is said of when that is.
    pub(crate) fn start() -> Clock {
        Clock { start: read_instant() }
    }

    /// The nanoseconds that have passed since the start. Nothing is said of how many: what
    /// uses the time is stated for every value of it.
    pub(crate) fn now(&self) -> u128 {
        nanoseconds_since(&self.start)
    }
}

/// `std::time::SystemTime`, a reading of the calendar clock.
#[verifier::external_type_specification]
#[verifier::external_body]
pub struct ExSystemTime(SystemTime);

/// `SystemTime::now`: the present time. Nothing can be said of it.
#[verifier::external_body]
fn read_system_time() -> (time: SystemTime) {
    SystemTime::now()
}

/// `SystemTime::duration_since`: the nanoseconds from the Unix epoch to a time, or `None`
/// for a time before it. Nothing is said of the number, as nothing is known of the time.
#[verifier::external_body]
fn nanoseconds_since_epoch(time: SystemTime) -> (elapsed: Option<u128>) {
    match time.duration_since(SystemTime::UNIX_EPOCH) {
        Ok(duration) => Some(duration.as_nanos()),
        Err(_) => None,
    }
}

/// The present time, in nanoseconds since the Unix epoch, as `epoch_stamp` has it. Nothing is
/// said of it: it depends on when the call is made, and on how the calendar clock is set.
pub(crate) fn unix_time_ns() -> (now: i64) {
    stamp_of(nanoseconds_since_epoch(read_system_time()))
}

/// The time stamp for a reading of the calendar clock, in nanoseconds since the Unix epoch: a
/// clock that is set before the epoch reads as the epoch, and of a number that is too large
/// the low bits stay.
pub open spec fn epoch_stamp(elapsed: Option<u128>) -> i64 {
    match elapsed {
        Some(nanoseconds) => nanoseconds as i64,
        None => 0,
    }
}

/// The time stamp for a reading of the calendar clock.
pub fn stamp_of(elapsed: Option<u128>) -> (stamp: i64)
    ensures
        stamp == epoch_stamp(elapsed),
        elapsed matches Some(nanoseconds) && nanoseconds <= i64::MAX ==> stamp == elapsed->0,
{
    match elapsed {
        Some(nanoseconds) => nanoseconds as i64,
        None => 0,
    }
}

/// A reading that fits is the time stamp itself, so that a later reading has a later stamp; a clock
/// that is set before the epoch reads as the epoch.
pub proof fn law_stamps(earlier: u128, later: u128)
    requires
        earlier < later,
        later <= i64::MAX,
    ensures
        epoch_stamp(Some(earlier)) < epoch_stamp(Some(later)),
        epoch_stamp(Some(later)) == later,
        epoch_stamp(None) == 0,
{
}

} // verus!
