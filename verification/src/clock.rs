//! The wall clock.

use crate::error::Error;
use std::time::Duration;
use std::time::SystemTime;
use std::time::SystemTimeError;
use vstd::prelude::*;

verus! {

/// `std::time::SystemTime`, a point in time by the system clock. Nothing is
/// known of what is inside.
#[verifier::external_type_specification]
#[verifier::external_body]
pub struct ExSystemTime(SystemTime);

/// `std::time::SystemTimeError`, the failure of
/// `SystemTime::duration_since`. Nothing is known of what is inside.
#[verifier::external_type_specification]
#[verifier::external_body]
pub struct ExSystemTimeError(SystemTimeError);

/// `SystemTime::now` reads the system clock. Nothing is claimed of the time
/// that it returns.
pub assume_specification[ SystemTime::now ]() -> (now: SystemTime)
;

/// `Duration::as_secs` gives the whole seconds of a duration. Nothing is
/// claimed of their number.
pub assume_specification[ Duration::as_secs ](duration: &Duration) -> (secs: u64)
;

/// `SystemTime::duration_since`, with `UNIX_EPOCH` as the earlier time: how
/// long after the epoch `time` lies, or a failure where it lies before it.
/// Nothing is claimed of either.
#[verifier::external_body]
fn since_epoch(time: &SystemTime) -> (elapsed: Result<Duration, SystemTimeError>) {
    time.duration_since(std::time::UNIX_EPOCH)
}

/// The whole seconds that have passed since the epoch, by the system clock.
///
/// A clock that is set to a time before the epoch is a fault of the
/// surroundings: no other error is returned.
pub fn secs_since_epoch() -> (now: Result<u64, Error>)
    ensures
        now is Err ==> now->Err_0 is CriticalServer,
{
    let time = SystemTime::now();
    match since_epoch(&time) {
        Ok(elapsed) => Ok(elapsed.as_secs()),
        Err(error) => Err(Error::CriticalServer(error.to_string())),
    }
}

} // verus!
