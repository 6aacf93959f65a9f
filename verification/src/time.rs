//! Points in time as milliseconds since the start of 1970.

use std::time::{Duration, SystemTime, SystemTimeError};
use vstd::prelude::*;

verus! {

/// `std::time::SystemTime`, a reading of the system's clock. Nothing of its
/// inside is known to the proofs.
#[verifier::external_type_specification]
#[verifier::external_body]
pub struct ExSystemTime(std::time::SystemTime);

/// `std::time::SystemTimeError`, what the standard library reports for a time
/// that lies before the one it is compared with.
#[verifier::external_type_specification]
#[verifier::external_body]
pub struct ExSystemTimeError(std::time::SystemTimeError);

/// The instant that an RFC 3339 text denotes, in milliseconds since the start
/// of 1970, as `chrono` reads it; nothing for a text that is no RFC 3339 date
/// and time.
pub uninterp spec fn rfc3339_millis(text: Seq<char>) -> Option<i64>;

/// The time from the start of 1970 to `time`; nothing for a time before 1970.
pub uninterp spec fn since_epoch(time: SystemTime) -> Option<Duration>;

/// The whole milliseconds of a duration.
pub uninterp spec fn whole_millis(elapsed: Duration) -> u128;

/// The milliseconds from the start of 1970 to `time`, as far as they fit in
/// 64 bits; nothing for a time before 1970.
pub open spec fn epoch_millis(time: SystemTime) -> Option<i64> {
    match since_epoch(time) {
        Some(elapsed) => Some(whole_millis(elapsed) as i64),
        None => None,
    }
}

/// What a reading of the clock counts as: its milliseconds since the start
/// of 1970, and zero for a reading before 1970.
pub open spec fn reading_ms(time: SystemTime) -> i64 {
    match epoch_millis(time) {
        Some(millis) => millis,
        None => 0,
    }
}

/// `chrono::DateTime::parse_from_rfc3339`, and `timestamp_millis` of what it
/// gives: the instant that the text denotes, or nothing where `chrono`
/// refuses the text. Which instant is not stated here but named.
#[verifier::external_body]
pub(crate) fn parse_rfc3339_ms(value: &str) -> (millis: Option<i64>)
    ensures
        millis == rfc3339_millis(value@),
{
    match chrono::DateTime::parse_from_rfc3339(value) {
        Ok(instant) => Some(instant.timestamp_millis()),
        Err(_) => None,
    }
}

/// `SystemTime::duration_since` with `UNIX_EPOCH`: the time that has passed
/// since the start of 1970, or the library's error for a time before it.
#[verifier::external_body]
pub(crate) fn duration_since_epoch(time: SystemTime) -> (elapsed: Result<
    Duration,
    SystemTimeError,
>)
    ensures
        match elapsed {
            Ok(passed) => since_epoch(time) == Some(passed),
            Err(_) => since_epoch(time) is None,
        },
{
    time.duration_since(std::time::UNIX_EPOCH)
}

/// `Duration::as_millis` of the standard library.
pub assume_specification[ Duration::as_millis ](elapsed: &Duration) -> (millis: u128)
    ensures
        millis == whole_millis(*elapsed),
;

/// `SystemTime::now` of the standard library. Nothing is known of what the
/// clock says.
#[verifier::external_body]
pub(crate) fn clock() -> (now: SystemTime) {
    SystemTime::now()
}

/// A time as milliseconds since the start of 1970. A time before 1970 has
/// none.
pub fn system_time_ms(value: SystemTime) -> (millis: Option<i64>)
    ensures
        millis == epoch_millis(value),
{
    match duration_since_epoch(value) {
        Ok(elapsed) => {
            let millis = elapsed.as_millis();
            Some(#[verifier::truncate] (millis as i64))
        },
        Err(_) => None,
    }
}

/// The milliseconds that a clock reading stands for: zero for a reading
/// before 1970.
pub fn millis_or_zero(millis: Option<i64>) -> (now: i64)
    ensures
        now == match millis {
            Some(ms) => ms,
            None => 0,
        },
{
    match millis {
        Some(ms) => ms,
        None => 0,
    }
}

/// The current time as milliseconds since the start of 1970, and zero where
/// the clock stands before 1970. What the clock says is not known; whatever
/// it says, the result is what that reading counts as.
pub fn now_ms() -> (now: i64)
    ensures
        exists|reading: SystemTime| now == reading_ms(reading),
{
    let reading = clock();
    let now = millis_or_zero(system_time_ms(reading));
    assert(now == reading_ms(reading));
    now
}

} // verus!
