//! The system clock.

use std::time::{Duration, SystemTime, SystemTimeError};

use vstd::prelude::*;

verus! {

/// `std::time::SystemTime`: a reading of the system clock.
#[verifier::external_type_specification]
#[verifier::external_body]
pub struct ExSystemTime(std::time::SystemTime);

/// `std::time::SystemTimeError`: a clock reading that lies before another one.
#[verifier::external_type_specification]
#[verifier::external_body]
pub struct ExSystemTimeError(std::time::SystemTimeError);

/// `SystemTime::now` reads the clock. Nothing is claimed of the reading.
pub assume_specification[ std::time::SystemTime::now ]() -> std::time::SystemTime
;

/// How many nanoseconds `Duration::as_nanos` counts in a duration.
pub uninterp spec fn nanos_in(duration: std::time::Duration) -> u128;

/// `Duration::as_nanos` counts the nanoseconds in a duration; the count depends
/// on the duration alone.
pub assume_specification[ std::time::Duration::as_nanos ](duration: &std::time::Duration) -> (nanos:
    u128)
    ensures
        nanos == nanos_in(*duration),
;

/// How long after the Unix epoch a reading of the clock is, as
/// `SystemTime::duration_since` measures it; `None` where it lies before.
pub uninterp spec fn after_epoch(reading: std::time::SystemTime) -> Option<std::time::Duration>;

/// `SystemTime::duration_since` on the Unix epoch: how long after the epoch the
/// reading is, an error where it lies before. Which of the two it is, and how
/// long, depends on the reading alone.
#[verifier::external_body]
fn since_epoch(reading: SystemTime) -> (elapsed: Result<Duration, SystemTimeError>)
    ensures
        elapsed matches Ok(duration) ==> after_epoch(reading) == Some(duration),
        elapsed is Err ==> after_epoch(reading) is None,
{
    reading.duration_since(std::time::UNIX_EPOCH)
}

/// The nanoseconds from the Unix epoch to a reading of the clock: 0 where the
/// reading lies before the epoch.
pub open spec fn timestamp_at(reading: std::time::SystemTime) -> u128 {
    match after_epoch(reading) {
        Some(duration) => nanos_in(duration),
        None => 0,
    }
}

/// The time that goes into a name, given how many nanoseconds after the epoch
/// the clock stands: 0 where it stands before the epoch.
pub fn timestamp_of(since_epoch_ns: Option<u128>) -> (timestamp_ns: u128)
    ensures
        timestamp_ns == (match since_epoch_ns {
            Some(nanos) => nanos,
            None => 0,
        }),
{
    match since_epoch_ns {
        Some(nanos) => nanos,
        None => 0,
    }
}

/// The time of a reading is the number of nanoseconds in its duration since the
/// Unix epoch, so readings that differ in that number have different times; a
/// reading before the epoch has time 0.
pub proof fn law_time_is_nanoseconds_since_the_epoch(
    reading: SystemTime,
    other: SystemTime,
    duration: Duration,
    longer: Duration,
)
    ensures
        after_epoch(reading) == Some(duration) ==> timestamp_at(reading) == nanos_in(duration),
        after_epoch(reading) is None ==> timestamp_at(reading) == 0,
        after_epoch(reading) == Some(duration) && after_epoch(other) == Some(longer) && nanos_in(
            duration,
        ) != nanos_in(longer) ==> timestamp_at(reading) != timestamp_at(other),
{
}

/// The time that goes into a name, by the clock: that of some reading. Which
/// reading it is, only the clock knows.
pub(crate) fn unix_time_ns() -> (timestamp_ns: u128)
    ensures
        exists|reading: SystemTime|
            timestamp_ns == #[trigger] timestamp_at(reading) && (match after_epoch(reading) {
                Some(duration) => timestamp_ns == nanos_in(duration),
                None => timestamp_ns == 0,
            }),
{
    let reading: SystemTime = SystemTime::now();
    let timestamp_ns: u128 = match since_epoch(reading) {
        Ok(duration) => timestamp_of(Some(duration.as_nanos())),
        Err(_) => timestamp_of(None),
    };
    assert(timestamp_ns == timestamp_at(reading));
    timestamp_ns
}

} // verus!
