//! The clock that the host reads its timestamps from.

use std::time::{Duration, SystemTime, SystemTimeError, UNIX_EPOCH};
use vstd::prelude::*;

verus! {

/// A point in time of the system clock.
#[verifier::external_type_specification]
#[verifier::external_body]
pub struct ExSystemTime(SystemTime);

/// The error of a clock that reads earlier than the point it is compared to.
#[verifier::external_type_specification]
#[verifier::external_body]
pub struct ExSystemTimeError(SystemTimeError);

/// `SystemTime::now` reads the system clock. Nothing is known of what it
/// reads.
pub assume_specification[ SystemTime::now ]() -> (now: SystemTime);

/// `SystemTime::duration_since` gives the time from `earlier` to `this`, or
/// an error where `earlier` is the later of the two.
pub assume_specification[ SystemTime::duration_since ](
    this: &SystemTime,
    earlier: SystemTime,
) -> (since: Result<Duration, SystemTimeError>);

/// The whole nanoseconds that a duration holds, as `Duration::as_nanos`
/// counts them.
pub uninterp spec fn nanos_of(duration: Duration) -> u128;

/// `Duration::as_nanos` gives a duration in whole nanoseconds: a value that
/// the duration alone decides.
pub assume_specification[ Duration::as_nanos ](duration: &Duration) -> (nanos: u128)
    ensures
        nanos == nanos_of(*duration),
;

/// The timestamp that an answer of the clock stands for: the nanoseconds of
/// the duration since the start of 1970, and none where the clock read a
/// time before that.
pub open spec fn timestamp_of(reading: Result<Duration, SystemTimeError>) -> Option<u128> {
    match reading {
        Ok(since) => Some(nanos_of(since)),
        Err(_) => None,
    }
}

/// The constant `UNIX_EPOCH` of std: the start of 1970 in UTC.
#[verifier::external_body]
fn unix_epoch() -> SystemTime {
    UNIX_EPOCH
}

/// Turns an answer of the clock into a timestamp: a duration into its
/// nanoseconds, an error into `None`.
pub fn timestamp(reading: Result<Duration, SystemTimeError>) -> (nanos: Option<u128>)
    ensures
        nanos == timestamp_of(reading),
{
    match reading {
        Ok(since) => Some(since.as_nanos()),
        Err(_) => None,
    }
}

/// The nanoseconds since the start of 1970 by the system clock, or `None`
/// where the clock reads a time before that. What the clock answers is not
/// known beforehand; the result is the timestamp of its answer.
pub fn time_nanos() -> (nanos: Option<u128>)
    ensures
        exists|reading: Result<Duration, SystemTimeError>| nanos == #[trigger] timestamp_of(reading),
{
    let reading = SystemTime::now().duration_since(unix_epoch());
    let ghost answer = reading;
    let nanos = timestamp(reading);
    assert(nanos == timestamp_of(answer));
    nanos
}

} // verus!
