//! The wall clock, in whole seconds since the Unix epoch.

use std::time::Duration;
use vstd::prelude::*;

verus! {

/// `SystemTime::elapsed` on `UNIX_EPOCH`: the time since the epoch, or `None`
/// where the system clock stands before it. Nothing is known of the value.
#[verifier::external_body]
fn epoch_elapsed() -> Option<Duration> {
    match std::time::UNIX_EPOCH.elapsed() {
        Ok(d) => Some(d),
        Err(_) => None,
    }
}

/// `Duration::as_secs`: the whole seconds of a duration. Nothing is stated of
/// the value.
#[verifier::external_body]
fn whole_seconds(d: &Duration) -> u64 {
    d.as_secs()
}

/// The current time in seconds since the Unix epoch; `None` where the system
/// clock is set before the epoch.
pub fn unix_time() -> Option<u64> {
    match epoch_elapsed() {
        Some(d) => Some(whole_seconds(&d)),
        None => None,
    }
}

/// The current time in seconds since the Unix epoch, and 0 where the system
/// clock is set before the epoch.
pub fn unix_time_or_zero() -> u64 {
    seconds_or_zero(unix_time())
}

/// The seconds of a clock reading, and 0 for a reading that failed.
pub fn seconds_or_zero(reading: Option<u64>) -> (r: u64)
    ensures
        r == match reading {
            Some(seconds) => seconds,
            None => 0,
        },
{
    match reading {
        Some(seconds) => seconds,
        None => 0,
    }
}

} // verus!
