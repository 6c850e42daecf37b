//! The system clock as a source of readings.
//!
//! Everything else in this library takes the time as an argument. What
//! stands here asks the machine for it, through the standard library's
//! `SystemTime`. Of what the clock says nothing is known beforehand: it is
//! the machine's own, and may be set forward or back between two readings.

use std::time::{Duration, SystemTime, SystemTimeError, UNIX_EPOCH};
use vstd::prelude::*;
use crate::clock::Timestamp;

verus! {

/// `std::time::SystemTime`, a reading of the system clock. It is carried
/// from one call to the next and never looked into.
#[verifier::external_type_specification]
#[verifier::external_body]
pub struct ExSystemTime(std::time::SystemTime);

/// `std::time::SystemTimeError`, the error of `SystemTime::duration_since`.
/// It is never looked into.
#[verifier::external_type_specification]
#[verifier::external_body]
pub struct ExSystemTimeError(std::time::SystemTimeError);

/// `SystemTime::now` reads the system clock. Nothing is claimed of the
/// reading.
pub assume_specification[ SystemTime::now ]() -> (now: SystemTime)
;

/// `Duration::as_secs` gives the whole seconds of a span. Nothing is
/// claimed of their number.
pub assume_specification[ Duration::as_secs ](span: &Duration) -> (secs: u64)
;

/// `Duration::subsec_nanos` gives what a span holds beyond its whole
/// seconds, in nanoseconds. That part is less than one second.
pub assume_specification[ Duration::subsec_nanos ](span: &Duration) -> (nanos: u32)
    ensures
        nanos < 1_000_000_000,
;

/// `SystemTime::duration_since`, called with `UNIX_EPOCH`: the span from
/// the epoch to `reading`, or an error where `reading` lies before the
/// epoch. Nothing is claimed of which of the two comes back.
#[verifier::external_body]
fn since_unix_epoch(reading: &SystemTime) -> (span: Result<Duration, SystemTimeError>) {
    reading.duration_since(UNIX_EPOCH)
}

/// Why the system clock gave no reading.
#[derive(Clone, Copy, Debug, PartialEq, Eq, Structural)]
pub enum ClockError {
    /// The clock is set to an instant before the Unix epoch.
    BeforeUnixEpoch,
}

impl ClockError {
    /// The sentence that says what is wrong with the clock.
    pub fn message(&self) -> (text: String)
        ensures
            text@ == "System clock is set before the Unix epoch"@,
    {
        match self {
            ClockError::BeforeUnixEpoch => "System clock is set before the Unix epoch".to_owned(),
        }
    }
}

/// Reads the system clock. The reading is well-formed; nothing else is
/// known of it.
pub fn read_clock() -> (reading: Result<Timestamp, ClockError>)
    ensures
        reading matches Ok(t) ==> t.wf(),
{
    let now = SystemTime::now();
    match since_unix_epoch(&now) {
        Ok(span) => {
            let secs: u64 = span.as_secs();
            let nanos: u32 = span.subsec_nanos();
            Ok(Timestamp { secs, nanos })
        },
        Err(_) => Err(ClockError::BeforeUnixEpoch),
    }
}

} // verus!
