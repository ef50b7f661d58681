//! The wall clock.
//!
//! Reading it never stops the process: a clock that stands before the Unix
//! epoch, or at an instant that cannot be written as a date, gives `None`.

use vstd::prelude::*;

verus! {

/// The type `std::time::SystemTime`: one reading of the system clock.
/// Nothing is known of what a value holds.
#[verifier::external_type_specification]
#[verifier::external_body]
pub struct ExSystemTime(std::time::SystemTime);

/// `Duration::as_secs`: the whole seconds of a duration. Nothing is claimed
/// of the number.
pub assume_specification[ core::time::Duration::as_secs ](elapsed: &core::time::Duration) -> (seconds:
    u64)
;

/// `Duration::subsec_nanos`: the part of a duration that is less than a
/// second, in nanoseconds. Its documentation gives the bound.
pub assume_specification[ core::time::Duration::subsec_nanos ](
    elapsed: &core::time::Duration,
) -> (nanos: u32)
    ensures
        nanos < 1_000_000_000,
;

/// Reads the system clock with `std::time::SystemTime::now`. Nothing is
/// claimed of the reading: two calls may hand back any two instants, the
/// later call not necessarily the later instant.
#[verifier::external_body]
fn system_now() -> (reading: std::time::SystemTime) {
    std::time::SystemTime::now()
}

/// The time from the Unix epoch to a reading, by
/// `SystemTime::duration_since`. Its error, for a reading before the epoch,
/// becomes `None`. Nothing is claimed of the duration.
#[verifier::external_body]
fn since_epoch(reading: &std::time::SystemTime) -> (elapsed: Option<core::time::Duration>) {
    match reading.duration_since(std::time::UNIX_EPOCH) {
        Ok(elapsed) => Some(elapsed),
        Err(_) => None,
    }
}

/// The instant that lies `seconds` and `nanos` after the Unix epoch, in
/// milliseconds, by `chrono::DateTime::from_timestamp` and
/// `DateTime::timestamp_millis`. `None` where chrono cannot write the
/// instant as a date; which instants those are is not claimed. chrono
/// documents that a date made by `from_timestamp` gives its seconds and
/// nanoseconds back, and `timestamp_millis` is those seconds times a
/// thousand plus the whole milliseconds of the nanoseconds.
#[verifier::external_body]
fn unix_millis(seconds: i64, nanos: u32) -> (millis: Option<i64>)
    ensures
        millis matches Some(value) ==> value == seconds * 1000 + nanos / 1_000_000,
{
    match chrono::DateTime::from_timestamp(seconds, nanos) {
        Some(instant) => Some(instant.timestamp_millis()),
        None => None,
    }
}

/// The current instant, in milliseconds since the Unix epoch, or `None`
/// where the clock cannot be read as such an instant: it stands before the
/// epoch, or further from it than a date can be.
pub(crate) fn now_millis() -> (now: Option<i64>) {
    let reading = system_now();
    match since_epoch(&reading) {
        Some(elapsed) => {
            let seconds: u64 = elapsed.as_secs();
            if seconds <= 9_223_372_036_854_775_807 {
                unix_millis(seconds as i64, elapsed.subsec_nanos())
            } else {
                None
            }
        },
        None => None,
    }
}

} // verus!
