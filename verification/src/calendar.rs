//! Timestamps written as text, read with `chrono`.

use vstd::prelude::*;
use chrono::DateTime;
use crate::instant::{
    instant_at, UtcInstant, MAX_EPOCH_SECONDS, MIN_EPOCH_SECONDS, NANOS_PER_MILLI,
    NANOS_PER_SECOND,
};

verus! {

/// The whole seconds of the earliest instant that an RFC 3339 text can name:
/// a day before the year 0000 begins, for a text of that year's first second
/// with the offset furthest east.
pub const RFC3339_MIN_SECONDS: i64 = -62_167_305_600;

/// The whole seconds of the latest instant that an RFC 3339 text can name: a
/// day after the year 9999 ends.
pub const RFC3339_MAX_SECONDS: i64 = 253_402_387_199;

/// Whether a reading lies where an RFC 3339 text can put it: the years are
/// written with four digits and the offset stays below a day, and the
/// nanoseconds stay below two seconds, a leap second included.
pub open spec fn within_rfc3339_range(reading: Option<(i64, u32)>) -> bool {
    reading matches Some((seconds, subsec_nanos)) ==> RFC3339_MIN_SECONDS <= seconds
        <= RFC3339_MAX_SECONDS && subsec_nanos < 2_000_000_000
}

/// What `chrono` reads from an RFC 3339 date and time: the whole seconds from
/// the Unix epoch and the nanoseconds past them, or `None` where the text is
/// no such date and time.
pub uninterp spec fn rfc3339_reading(text: Seq<char>) -> Option<(i64, u32)>;

/// Calls `chrono::DateTime::parse_from_rfc3339` and hands back the parsed
/// value's `timestamp()` and `timestamp_subsec_nanos()`. The contract names
/// the result, since the same text always reads the same, and says where it
/// lies: `chrono` takes a year of four digits, a time of day with at most one
/// leap second, and an offset below a day.
#[verifier::external_body]
pub(crate) fn read_rfc3339(text: &str) -> (r: Option<(i64, u32)>)
    ensures
        r == rfc3339_reading(text@),
        within_rfc3339_range(r),
{
    match DateTime::parse_from_rfc3339(text) {
        Ok(parsed) => Some((parsed.timestamp(), parsed.timestamp_subsec_nanos())),
        Err(_) => None,
    }
}

/// Calls `chrono::DateTime::from_timestamp` and hands back the `timestamp()`
/// and `timestamp_subsec_nanos()` of what it made. `chrono` holds the years
/// from -262143 to 262142: given nanoseconds that stay below the next second,
/// it makes a value exactly for the seconds from `MIN_EPOCH_SECONDS` to
/// `MAX_EPOCH_SECONDS`, and that value gives back the seconds and nanoseconds
/// it was made from.
#[verifier::external_body]
pub(crate) fn datetime_from_timestamp(seconds: i64, subsec_nanos: u32) -> (r: Option<(i64, u32)>)
    requires
        subsec_nanos < 1_000_000_000,
    ensures
        r == if MIN_EPOCH_SECONDS <= seconds <= MAX_EPOCH_SECONDS {
            Some((seconds, subsec_nanos))
        } else {
            None
        },
{
    match DateTime::from_timestamp(seconds, subsec_nanos) {
        Some(made) => Some((made.timestamp(), made.timestamp_subsec_nanos())),
        None => None,
    }
}

/// Calls `chrono::DateTime::from_timestamp_millis` and hands back the
/// `timestamp_millis()` of what it made: a value exactly for the
/// milliseconds that fall into the seconds from `MIN_EPOCH_SECONDS` to
/// `MAX_EPOCH_SECONDS`, which gives back the milliseconds it was made from.
#[verifier::external_body]
pub(crate) fn datetime_from_timestamp_millis(millis: i64) -> (r: Option<i64>)
    ensures
        r == if MIN_EPOCH_SECONDS * 1000 <= millis <= MAX_EPOCH_SECONDS * 1000 + 999 {
            Some(millis)
        } else {
            None
        },
{
    match DateTime::from_timestamp_millis(millis) {
        Some(made) => Some(made.timestamp_millis()),
        None => None,
    }
}

/// The instant that a reading of seconds and nanoseconds stands for, where it
/// is representable.
pub open spec fn instant_of_reading(reading: Option<(i64, u32)>) -> Option<int> {
    match reading {
        Some((seconds, subsec_nanos)) => instant_at(seconds * NANOS_PER_SECOND + subsec_nanos),
        None => None,
    }
}

/// The instant that an RFC 3339 text names.
pub open spec fn rfc3339_instant(text: Seq<char>) -> Option<int> {
    instant_of_reading(rfc3339_reading(text))
}

/// Turns a reading of seconds and nanoseconds into an instant.
pub fn instant_from_reading(reading: Option<(i64, u32)>) -> (r: Option<UtcInstant>)
    ensures
        r.is_some() == instant_of_reading(reading).is_some(),
        r matches Some(t) ==> Some(t@) == instant_of_reading(reading),
{
    match reading {
        Some((seconds, subsec_nanos)) => UtcInstant::from_parts(seconds, subsec_nanos),
        None => None,
    }
}

/// Reads an RFC 3339 date and time, such as `2030-01-01T00:00:00Z`. Every
/// text that reads names a representable instant.
pub fn parse_rfc3339(text: &str) -> (r: Option<UtcInstant>)
    ensures
        r.is_some() == rfc3339_reading(text@).is_some(),
        r.is_some() == rfc3339_instant(text@).is_some(),
        r matches Some(t) ==> Some(t@) == rfc3339_instant(text@),
        within_rfc3339_range(rfc3339_reading(text@)),
{
    instant_from_reading(read_rfc3339(text))
}

/// The instant a count of whole seconds from the epoch names; `None` outside
/// the representable range.
pub fn instant_from_unix_seconds(seconds: i64) -> (r: Option<UtcInstant>)
    ensures
        r.is_some() == instant_at(seconds * NANOS_PER_SECOND).is_some(),
        r matches Some(t) ==> t@ == seconds * NANOS_PER_SECOND,
{
    match datetime_from_timestamp(seconds, 0) {
        Some((whole, subsec_nanos)) => UtcInstant::from_parts(whole, subsec_nanos),
        None => None,
    }
}

/// The instant a count of milliseconds from the epoch names; `None` outside
/// the representable range.
pub fn instant_from_unix_millis(millis: i64) -> (r: Option<UtcInstant>)
    ensures
        r.is_some() == instant_at(millis * NANOS_PER_MILLI).is_some(),
        r matches Some(t) ==> t@ == millis * NANOS_PER_MILLI,
{
    match datetime_from_timestamp_millis(millis) {
        Some(made) => UtcInstant::from_epoch_millis(made),
        None => None,
    }
}

} // verus!
