//! Reading the system clock as milliseconds since the Unix epoch.
use vstd::prelude::*;
use std::time::{Duration, SystemTime, SystemTimeError};

verus! {

#[verifier::external_type_specification]
#[verifier::external_body]
pub struct ExSystemTime(std::time::SystemTime);

#[verifier::external_type_specification]
#[verifier::external_body]
pub struct ExSystemTimeError(std::time::SystemTimeError);

/// Relies on `SystemTime::now` to read the system clock. Nothing is known of
/// the reading.
pub assume_specification[ std::time::SystemTime::now ]() -> std::time::SystemTime;

/// Relies on `Duration::as_millis` for the whole milliseconds of a duration.
/// Nothing is stated of the value: the duration is opaque here.
pub assume_specification[ core::time::Duration::as_millis ](d: &core::time::Duration) -> u128;

/// Relies on `SystemTime::duration_since` with `UNIX_EPOCH` as the earlier
/// time: the time elapsed since the epoch, or an error when `t` lies before it.
#[verifier::external_body]
fn elapsed_since_unix_epoch(t: &SystemTime) -> (r: Result<Duration, SystemTimeError>) {
    t.duration_since(std::time::UNIX_EPOCH)
}

/// Why the clock could not be read.
#[derive(Debug, Clone, Copy, PartialEq, Eq, Structural)]
pub enum ClockError {
    /// The system clock reports a time before the Unix epoch.
    BeforeUnixEpoch,
}

/// The current wall-clock time in milliseconds since the Unix epoch
/// (truncated to 64 bits), or `ClockError::BeforeUnixEpoch` when the system
/// clock reports a time before the epoch. The reading depends on the clock
/// alone, so no value is promised.
pub fn fsdkuid_get_current_unix_timestamp_milliseconds() -> (r: Result<u64, ClockError>) {
    let now = SystemTime::now();
    match elapsed_since_unix_epoch(&now) {
        Ok(elapsed) => Ok(elapsed.as_millis() as u64),
        Err(_) => Err(ClockError::BeforeUnixEpoch),
    }
}

} // verus!
