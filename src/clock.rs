//! Wall-clock time, read through std.
use std::time::{Duration, SystemTime, SystemTimeError};
use vstd::prelude::*;

verus! {

#[verifier::external_type_specification]
#[verifier::external_body]
pub struct ExSystemTime(SystemTime);

#[verifier::external_type_specification]
#[verifier::external_body]
pub struct ExSystemTimeError(SystemTimeError);

/// Relies on std::time::SystemTime::now: the current wall-clock time, of
/// which nothing can be promised.
pub assume_specification[ SystemTime::now ]() -> SystemTime;

/// Relies on std::time::Duration::as_millis: the whole milliseconds of a
/// span.
pub assume_specification[ Duration::as_millis ](d: &Duration) -> u128;

/// Relies on std::time::SystemTime::duration_since with the Unix epoch: the
/// span since the epoch, or an error for a time before it.
#[verifier::external_body]
fn since_epoch(t: &SystemTime) -> Result<Duration, SystemTimeError> {
    t.duration_since(std::time::UNIX_EPOCH)
}

/// What a clock reading becomes: its whole milliseconds since the epoch,
/// or zero for a reading before the epoch.
pub fn millis_or_zero(reading: Option<u128>) -> (r: u128)
    ensures
        r == match reading {
            Some(ms) => ms,
            None => 0u128,
        },
{
    match reading {
        Some(ms) => ms,
        None => 0,
    }
}

/// Milliseconds since the Unix epoch; zero when the clock reads earlier.
/// Never panics.
pub fn now_ms() -> u128 {
    let reading = match since_epoch(&SystemTime::now()) {
        Ok(d) => Some(d.as_millis()),
        Err(_) => None,
    };
    millis_or_zero(reading)
}

} // verus!
