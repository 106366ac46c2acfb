//! The time at which a record is translated.
//!
//! The worker's records carry no time. The bridge gives each message the
//! second at which it translated the record, read from the system clock and
//! never taken from the worker.
use vstd::prelude::*;

verus! {

/// The timestamp for a clock that reads `seconds` since the epoch. A clock
/// that stands before the epoch reads a negative number, for which the
/// timestamp is zero.
pub open spec fn clamped(seconds: i64) -> u64 {
    if seconds < 0 {
        0
    } else {
        seconds as u64
    }
}

/// `chrono::DateTime::<Utc>::from` of `std::time::SystemTime::now()`, and
/// `DateTime::timestamp` of that: the seconds since the epoch by the system
/// clock, negative for a clock that stands before the epoch. The value
/// depends on when the call is made, and nothing is claimed of it. chrono has
/// no date for a clock more than 262 000 years from the epoch, and does not
/// return for one.
#[verifier::external_body]
pub(crate) fn now() -> i64 {
    chrono::DateTime::<chrono::Utc>::from(std::time::SystemTime::now()).timestamp()
}

/// The timestamp for a clock that reads `seconds` since the epoch.
pub fn timestamp_at(seconds: i64) -> (stamp: u64)
    ensures
        stamp == clamped(seconds),
        seconds >= 0 ==> stamp == seconds,
        seconds < 0 ==> stamp == 0,
{
    if seconds < 0 {
        0
    } else {
        seconds as u64
    }
}

/// The timestamp for the present moment: what [`timestamp_at`] gives for the
/// system clock's reading, whatever that is.
pub fn timestamp() -> (stamp: u64)
    ensures
        exists|seconds: i64| stamp == clamped(seconds),
{
    let seconds = now();
    timestamp_at(seconds)
}

} // verus!
