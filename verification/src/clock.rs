//! The wall clock, in whole seconds since the Unix epoch.

use vstd::prelude::*;

verus! {

/// Trusted: `std::time::SystemTime`, a reading of the system clock. Nothing
/// is known of what a value of it holds.
#[verifier::external_type_specification]
#[verifier::external_body]
pub struct ExSystemTime(std::time::SystemTime);

/// Trusted: `std::time::SystemTime::now` reads the system clock. Nothing is
/// claimed of the time it returns.
pub assume_specification[ std::time::SystemTime::now ]() -> (now: std::time::SystemTime);

/// Trusted: `std::time::Duration::as_secs` gives the whole seconds of a
/// duration. Nothing is claimed of their number.
pub assume_specification[ std::time::Duration::as_secs ](duration: &std::time::Duration) -> (seconds: u64);

/// Trusted: calls `std::time::SystemTime::duration_since` with
/// `std::time::UNIX_EPOCH` and hands back the duration, or `None` where the
/// call reports that `time` lies before the epoch.
#[verifier::external_body]
fn since_unix_epoch(time: &std::time::SystemTime) -> (elapsed: Option<std::time::Duration>) {
    match time.duration_since(std::time::UNIX_EPOCH) {
        Ok(elapsed) => Some(elapsed),
        Err(_) => None,
    }
}

/// The timestamp for a reading of the clock: the seconds read, or 0 where
/// the clock gave no reading.
pub fn timestamp_from_reading(reading: Option<u64>) -> (timestamp: u64)
    ensures
        timestamp == match reading {
            Some(seconds) => seconds,
            None => 0,
        },
{
    match reading {
        Some(seconds) => seconds,
        None => 0,
    }
}

/// The current wall-clock time in seconds since the Unix epoch, or 0 where
/// the clock stands before the epoch.
pub fn current_unix_timestamp() -> u64 {
    let now = std::time::SystemTime::now();
    let reading = match since_unix_epoch(&now) {
        Some(elapsed) => Some(elapsed.as_secs()),
        None => None,
    };
    timestamp_from_reading(reading)
}

} // verus!
