//! The wall clock.

use std::time::{Duration, SystemTime, UNIX_EPOCH};
use vstd::prelude::*;

verus! {

#[verifier::external_type_specification]
#[verifier::external_body]
pub struct ExSystemTime(SystemTime);

/// `SystemTime::now`: the time by the system's clock. Nothing is claimed of
/// it.
#[verifier::external_body]
pub(crate) fn system_now() -> (r: SystemTime) {
    SystemTime::now()
}

/// `SystemTime::duration_since` against `UNIX_EPOCH`: the time that has
/// passed since the start of 1970, or `None` for a time before it. Nothing
/// is claimed of the duration.
#[verifier::external_body]
pub(crate) fn since_epoch(time: SystemTime) -> (r: Option<Duration>) {
    time.duration_since(UNIX_EPOCH).ok()
}

/// `Duration::as_millis`: the duration in whole milliseconds. Nothing is
/// claimed of the number.
#[verifier::external_body]
pub(crate) fn whole_millis(duration: Duration) -> (r: u128) {
    duration.as_millis()
}

/// A count of milliseconds as a timestamp: its low 64 bits, read as a signed
/// number.
pub open spec fn timestamp_of(millis: u128) -> i64 {
    millis as i64
}

/// The milliseconds since the start of 1970 by the system's clock, or `None`
/// where the clock stands before it.
pub(crate) fn unix_millis_now() -> (r: Option<u128>) {
    match since_epoch(system_now()) {
        Some(duration) => Some(whole_millis(duration)),
        None => None,
    }
}

/// A count of milliseconds as a timestamp.
pub fn millis_to_timestamp(millis: u128) -> (r: i64)
    ensures
        r == timestamp_of(millis),
        millis <= i64::MAX ==> r == millis,
{
    #[verifier::truncate]
    (millis as i64)
}

} // verus!
