//! Reading the system clock.

use vstd::prelude::*;
use crate::error::Error;

verus! {

/// A point in time of the system clock.
#[verifier::external_type_specification]
#[verifier::external_body]
pub struct ExSystemTime(std::time::SystemTime);

/// The error of `SystemTime::duration_since`.
#[verifier::external_type_specification]
#[verifier::external_body]
pub struct ExSystemTimeError(std::time::SystemTimeError);

/// Calls `std::time::SystemTime::now`. Nothing is claimed of the result: it
/// depends on when the call is made.
#[verifier::external_body]
fn system_time_now() -> std::time::SystemTime {
    std::time::SystemTime::now()
}

/// Calls `SystemTime::duration_since` with the Unix epoch. Nothing is claimed
/// of the result.
#[verifier::external_body]
fn since_unix_epoch(t: &std::time::SystemTime) -> Result<
    std::time::Duration,
    std::time::SystemTimeError,
> {
    t.duration_since(std::time::UNIX_EPOCH)
}

/// Calls `Duration::as_nanos`. Nothing is claimed of the result.
#[verifier::external_body]
fn duration_as_nanos(d: &std::time::Duration) -> u128 {
    d.as_nanos()
}

/// The timestamp that stands for `nanos` nanoseconds since the Unix epoch,
/// unless 64 bits cannot hold it.
pub fn timestamp_from_nanos(nanos: u128) -> (res: Result<u64, Error>)
    ensures
        nanos <= u64::MAX ==> res == Ok::<u64, Error>(nanos as u64),
        nanos > u64::MAX ==> res == Err::<u64, Error>(Error::InvalidSystemTime),
{
    if nanos <= u64::MAX as u128 {
        Ok(nanos as u64)
    } else {
        Err(Error::InvalidSystemTime)
    }
}

/// The time of the system clock, in nanoseconds since the Unix epoch.
///
/// Fails with `InvalidSystemTime` when the clock stands before the epoch or
/// beyond what 64 bits can hold, and in no other way.
pub fn get_current_timestamp_u64_ns() -> (res: Result<u64, Error>)
    ensures
        res matches Err(e) ==> e == Error::InvalidSystemTime,
{
    let now = system_time_now();
    match since_unix_epoch(&now) {
        Ok(elapsed) => timestamp_from_nanos(duration_as_nanos(&elapsed)),
        Err(_) => Err(Error::InvalidSystemTime),
    }
}

} // verus!
