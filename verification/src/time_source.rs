//! Reading the answer of one time source: the status decides whether there
//! is an answer at all, the body is searched for a timestamp under the names
//! that sources are known to use, and the round trip is compensated.

use vstd::prelude::*;
use vstd::string::StringExecFns;
use crate::calendar::{
    instant_from_unix_millis, instant_from_unix_seconds, parse_rfc3339, rfc3339_instant,
};
use crate::estimator::{compensated_of, TimeSample};
use crate::instant::{instant_at, representable, UtcInstant, NANOS_PER_MILLI, NANOS_PER_SECOND};
use crate::text::{contains_text, occurs_in};

verus! {

/// The longest a query may take to connect, in seconds.
pub const QUERY_CONNECT_TIMEOUT_SECS: u64 = 4;

/// The longest a query may take in all, in seconds.
pub const QUERY_TIMEOUT_SECS: u64 = 6;

/// How many time sources are configured.
pub const TIME_SOURCE_COUNT: usize = 1;

/// The address of a configured time source.
pub fn time_source_url(i: usize) -> (url: &'static str)
    ensures
        url@ == "https://api.frankfurter.app/latest"@,
{
    "https://api.frankfurter.app/latest"
}

/// The name of a configured time source.
pub fn time_source_name(i: usize) -> (name: &'static str)
    ensures
        name@ == "frankfurter.app"@,
{
    "frankfurter.app"
}

/// Why a time source gave no sample.
#[derive(Clone, Copy, Debug, PartialEq, Eq, Structural)]
pub enum TimeSourceError {
    /// The source could not be reached, timed out, or answered with a status
    /// outside the 200s.
    Transport,
    /// The answer holds no timestamp that can be read.
    Parse,
}

/// A JSON value of `serde_json`, opaque here.
#[verifier::external_type_specification]
#[verifier::external_body]
pub struct ExJsonValue(serde_json::Value);

/// The members of a JSON object whose value is a string, by name. Empty for
/// a value that is no object.
pub uninterp spec fn json_strings(document: serde_json::Value) -> Map<Seq<char>, Seq<char>>;

/// The members of a JSON object whose value is an integer that fits `i64`,
/// by name. Empty for a value that is no object.
pub uninterp spec fn json_integers(document: serde_json::Value) -> Map<Seq<char>, i64>;

/// What a timestamp is looked for in: the string members and the integer
/// members of an answer.
pub struct JsonMembers {
    pub strings: Map<Seq<char>, Seq<char>>,
    pub integers: Map<Seq<char>, i64>,
}

/// The members of the JSON value that a text is, or `None` where the text is
/// not JSON.
pub uninterp spec fn json_members(text: Seq<char>) -> Option<JsonMembers>;

/// The members of a parsed value.
pub open spec fn members_of_value(value: serde_json::Value) -> JsonMembers {
    JsonMembers { strings: json_strings(value), integers: json_integers(value) }
}

/// The members of what parsing gave.
pub open spec fn members_of(document: Option<serde_json::Value>) -> Option<JsonMembers> {
    match document {
        Some(value) => Some(members_of_value(value)),
        None => None,
    }
}

/// Calls `serde_json::from_str` for a `serde_json::Value`, with `None` for
/// its error. The contract only names the result: the same text always
/// parses to a value with the same members.
#[verifier::external_body]
fn parse_json(text: &str) -> (document: Option<serde_json::Value>)
    ensures
        members_of(document) == json_members(text@),
{
    match serde_json::from_str::<serde_json::Value>(text) {
        Ok(value) => Some(value),
        Err(_) => None,
    }
}

/// Indexes a `serde_json::Value` by a member's name and calls `as_str` on
/// what is there: the string, where the value is an object with a string
/// under that name, and `None` otherwise.
#[verifier::external_body]
fn string_member(document: &serde_json::Value, name: &str) -> (member: Option<String>)
    ensures
        member.is_some() == json_strings(*document).contains_key(name@),
        member matches Some(text) ==> text@ == json_strings(*document)[name@],
{
    match document[name].as_str() {
        Some(text) => Some(text.to_string()),
        None => None,
    }
}

/// Indexes a `serde_json::Value` by a member's name and calls `as_i64` on
/// what is there: the number, where the value is an object with an integer
/// that fits `i64` under that name, and `None` otherwise.
#[verifier::external_body]
fn integer_member(document: &serde_json::Value, name: &str) -> (member: Option<i64>)
    ensures
        member.is_some() == json_integers(*document).contains_key(name@),
        member matches Some(number) ==> number == json_integers(*document)[name@],
{
    document[name].as_i64()
}

/// How many names a date and time may stand under.
pub const DATE_FIELD_COUNT: usize = 6;

/// The names under which sources report a date and time as text, in the
/// order in which they are tried.
pub open spec fn date_field_of(i: int) -> Seq<char> {
    if i == 0 {
        "dateTime"@
    } else if i == 1 {
        "datetime"@
    } else if i == 2 {
        "currentDateTime"@
    } else if i == 3 {
        "utc_datetime"@
    } else if i == 4 {
        "time"@
    } else {
        "current_time"@
    }
}

/// The name at place `i` among those a date and time may stand under; the
/// last one for any place beyond.
pub fn date_field(i: usize) -> (name: &'static str)
    ensures
        name@ == date_field_of(i as int),
{
    if i == 0 {
        "dateTime"
    } else if i == 1 {
        "datetime"
    } else if i == 2 {
        "currentDateTime"
    } else if i == 3 {
        "utc_datetime"
    } else if i == 4 {
        "time"
    } else {
        "current_time"
    }
}

/// The instant that the string member `name` holds, where there is such a
/// member and it reads as an RFC 3339 date and time.
pub open spec fn date_under(strings: Map<Seq<char>, Seq<char>>, name: Seq<char>) -> Option<int> {
    if strings.contains_key(name) {
        rfc3339_instant(strings[name])
    } else {
        None
    }
}

/// The first instant found under the date names from place `from` on.
pub open spec fn first_date_from(strings: Map<Seq<char>, Seq<char>>, from: int) -> Option<int>
    decreases DATE_FIELD_COUNT - from,
{
    if from < 0 || from >= DATE_FIELD_COUNT {
        None
    } else if date_under(strings, date_field_of(from)) is Some {
        date_under(strings, date_field_of(from))
    } else {
        first_date_from(strings, from + 1)
    }
}

/// The instant that the integer member `name` holds, counted in units of
/// `unit_nanos` nanoseconds from the epoch.
pub open spec fn count_under(integers: Map<Seq<char>, i64>, name: Seq<char>, unit_nanos: int) -> Option<
    int,
> {
    if integers.contains_key(name) {
        instant_at(integers[name] * unit_nanos)
    } else {
        None
    }
}

/// The timestamp of an answer: the first date and time that reads, else the
/// seconds under `unixtime`, else the milliseconds under `timestamp`.
pub open spec fn timestamp_in(members: JsonMembers) -> Option<int> {
    if first_date_from(members.strings, 0) is Some {
        first_date_from(members.strings, 0)
    } else if count_under(members.integers, "unixtime"@, NANOS_PER_SECOND as int) is Some {
        count_under(members.integers, "unixtime"@, NANOS_PER_SECOND as int)
    } else {
        count_under(members.integers, "timestamp"@, NANOS_PER_MILLI as int)
    }
}

/// How many sources are let off when their answer holds no timestamp.
pub const FALLBACK_HOST_COUNT: usize = 14;

/// The sources that are let off: where one of these stands in the name of a
/// source, the local clock takes the place of a timestamp not found.
pub open spec fn fallback_host_of(i: int) -> Seq<char> {
    if i == 0 {
        "github.com"@
    } else if i == 1 {
        "httpbin.org"@
    } else if i == 2 {
        "coindesk.com"@
    } else if i == 3 {
        "exchangerate-api.com"@
    } else if i == 4 {
        "frankfurter.app"@
    } else if i == 5 {
        "fixer.io"@
    } else if i == 6 {
        "jsonplaceholder.typicode.com"@
    } else if i == 7 {
        "httpstat.us"@
    } else if i == 8 {
        "quotable.io"@
    } else if i == 9 {
        "adviceslip.com"@
    } else if i == 10 {
        "chucknorris.io"@
    } else if i == 11 {
        "official-joke-api"@
    } else if i == 12 {
        "openweathermap.org"@
    } else {
        "sunrise-sunset.org"@
    }
}

/// The source at place `i` among those that are let off; the last one for
/// any place beyond.
pub fn fallback_host(i: usize) -> (host: &'static str)
    ensures
        host@ == fallback_host_of(i as int),
{
    if i == 0 {
        "github.com"
    } else if i == 1 {
        "httpbin.org"
    } else if i == 2 {
        "coindesk.com"
    } else if i == 3 {
        "exchangerate-api.com"
    } else if i == 4 {
        "frankfurter.app"
    } else if i == 5 {
        "fixer.io"
    } else if i == 6 {
        "jsonplaceholder.typicode.com"
    } else if i == 7 {
        "httpstat.us"
    } else if i == 8 {
        "quotable.io"
    } else if i == 9 {
        "adviceslip.com"
    } else if i == 10 {
        "chucknorris.io"
    } else if i == 11 {
        "official-joke-api"
    } else if i == 12 {
        "openweathermap.org"
    } else {
        "sunrise-sunset.org"
    }
}

/// Whether a source is one of those let off.
pub open spec fn is_fallback_source_of(source: Seq<char>) -> bool {
    exists|i: int| 0 <= i < FALLBACK_HOST_COUNT && occurs_in(#[trigger] fallback_host_of(i), source)
}

/// What an answer is read as: the instant and whether it is only the local
/// clock standing in, or the error.
pub open spec fn reading_of_answer(
    members: Option<JsonMembers>,
    source: Seq<char>,
    system_now: int,
) -> Result<(int, bool), TimeSourceError> {
    let found = match members {
        Some(m) => timestamp_in(m),
        None => None,
    };
    match found {
        Some(instant) => Ok((instant, false)),
        None => if is_fallback_source_of(source) {
            Ok((system_now, true))
        } else {
            Err(TimeSourceError::Parse)
        },
    }
}

/// A sample as plain values.
pub struct SampleView {
    pub observed: int,
    pub latency_nanos: u64,
    pub source: Seq<char>,
    pub reduced_confidence: bool,
}

/// The plain values of a sample.
pub open spec fn sample_view(sample: TimeSample) -> SampleView {
    SampleView {
        observed: sample.observed_instant@,
        latency_nanos: sample.measured_latency_nanos,
        source: sample.source_id@,
        reduced_confidence: sample.reduced_confidence,
    }
}

/// What the answer of a source is made into: a sample, or the error.
pub open spec fn sample_of_reply(
    status: u16,
    members: Option<JsonMembers>,
    latency_nanos: u64,
    source: Seq<char>,
    system_now: int,
) -> Result<SampleView, TimeSourceError> {
    if !(200 <= status < 300) {
        Err(TimeSourceError::Transport)
    } else {
        match reading_of_answer(members, source, system_now) {
            Err(e) => Err(e),
            Ok((raw, reduced_confidence)) => if representable(
                compensated_of(raw, latency_nanos as int),
            ) {
                Ok(
                    SampleView {
                        observed: compensated_of(raw, latency_nanos as int),
                        latency_nanos,
                        source,
                        reduced_confidence,
                    },
                )
            } else {
                Err(TimeSourceError::Parse)
            },
        }
    }
}

/// The instant read from the body of an answer.
#[derive(Clone, Copy, Debug, PartialEq, Eq, Structural)]
pub struct TimeReading {
    pub instant: UtcInstant,
    /// Set where the body held no timestamp and the local clock stands in:
    /// such a reading is no synchronisation.
    pub reduced_confidence: bool,
}

impl TimeReading {
    /// The reading as plain values.
    pub open spec fn as_pair(self) -> (int, bool) {
        (self.instant@, self.reduced_confidence)
    }
}

/// Whether a source is one of those for which the local clock may stand in.
pub fn is_fallback_source(source: &str) -> (b: bool)
    ensures
        b == is_fallback_source_of(source@),
{
    let mut i: usize = 0;
    while i < FALLBACK_HOST_COUNT
        invariant
            i <= FALLBACK_HOST_COUNT,
            forall|k: int| 0 <= k < i ==> !occurs_in(#[trigger] fallback_host_of(k), source@),
        decreases FALLBACK_HOST_COUNT - i,
    {
        if contains_text(source, fallback_host(i)) {
            return true;
        }
        i += 1;
    }
    false
}

/// The first date and time that reads, among the string members of a parsed
/// answer.
pub fn first_date_in(document: &serde_json::Value) -> (r: Option<UtcInstant>)
    ensures
        r.is_some() == first_date_from(json_strings(*document), 0).is_some(),
        r matches Some(t) ==> Some(t@) == first_date_from(json_strings(*document), 0),
{
    let mut i: usize = 0;
    while i < DATE_FIELD_COUNT
        invariant
            i <= DATE_FIELD_COUNT,
            first_date_from(json_strings(*document), 0) == first_date_from(
                json_strings(*document),
                i as int,
            ),
        decreases DATE_FIELD_COUNT - i,
    {
        if let Some(text) = string_member(document, date_field(i)) {
            if let Some(instant) = parse_rfc3339(text.as_str()) {
                return Some(instant);
            }
        }
        i += 1;
    }
    None
}

/// The timestamp of a parsed answer.
pub fn timestamp_from_document(document: &serde_json::Value) -> (r: Option<UtcInstant>)
    ensures
        r.is_some() == timestamp_in(members_of_value(*document)).is_some(),
        r matches Some(t) ==> Some(t@) == timestamp_in(members_of_value(*document)),
{
    if let Some(instant) = first_date_in(document) {
        return Some(instant);
    }
    if let Some(seconds) = integer_member(document, "unixtime") {
        if let Some(instant) = instant_from_unix_seconds(seconds) {
            return Some(instant);
        }
    }
    if let Some(millis) = integer_member(document, "timestamp") {
        if let Some(instant) = instant_from_unix_millis(millis) {
            return Some(instant);
        }
    }
    None
}

/// Reads a parsed answer, or the lack of one, as a source's time. Where no
/// timestamp is found the local clock stands in for the sources that are let
/// off, marked as of reduced confidence; for any other source that is a
/// parse error.
pub fn reading_from_document(
    document: &Option<serde_json::Value>,
    source: &str,
    system_now: UtcInstant,
) -> (r: Result<TimeReading, TimeSourceError>)
    ensures
        r matches Ok(reading) ==> Ok::<(int, bool), TimeSourceError>(reading.as_pair())
            == reading_of_answer(members_of(*document), source@, system_now@),
        r matches Err(e) ==> Err::<(int, bool), TimeSourceError>(e) == reading_of_answer(
            members_of(*document),
            source@,
            system_now@,
        ),
{
    let found = match document {
        Some(value) => timestamp_from_document(value),
        None => None,
    };
    match found {
        Some(instant) => Ok(TimeReading { instant, reduced_confidence: false }),
        None => if is_fallback_source(source) {
            Ok(TimeReading { instant: system_now, reduced_confidence: true })
        } else {
            Err(TimeSourceError::Parse)
        },
    }
}

/// Reads the time out of the body of an answer: the body is parsed as JSON
/// and searched for a timestamp.
pub fn parse_time_from_json(json_text: &str, source: &str, system_now: UtcInstant) -> (r: Result<
    TimeReading,
    TimeSourceError,
>)
    ensures
        r matches Ok(reading) ==> Ok::<(int, bool), TimeSourceError>(reading.as_pair())
            == reading_of_answer(json_members(json_text@), source@, system_now@),
        r matches Err(e) ==> Err::<(int, bool), TimeSourceError>(e) == reading_of_answer(
            json_members(json_text@),
            source@,
            system_now@,
        ),
{
    let document = parse_json(json_text);
    reading_from_document(&document, source, system_now)
}

/// Makes a sample of what a source answered: a status outside the 200s is a
/// transport error; a body without a timestamp is a parse error, unless the
/// source is let off; the instant read is moved forward by half the round
/// trip.
pub fn sample_from_reply(
    status: u16,
    body: &str,
    latency_nanos: u64,
    source: &str,
    system_now: UtcInstant,
) -> (r: Result<TimeSample, TimeSourceError>)
    ensures
        r matches Ok(sample) ==> Ok::<SampleView, TimeSourceError>(sample_view(sample))
            == sample_of_reply(status, json_members(body@), latency_nanos, source@, system_now@),
        r matches Err(e) ==> Err::<SampleView, TimeSourceError>(e) == sample_of_reply(
            status,
            json_members(body@),
            latency_nanos,
            source@,
            system_now@,
        ),
{
    if status < 200 || status >= 300 {
        return Err(TimeSourceError::Transport);
    }
    match parse_time_from_json(body, source, system_now) {
        Err(e) => Err(e),
        Ok(reading) => match TimeSample::new(
            reading.instant,
            latency_nanos,
            String::from_str(source),
            reading.reduced_confidence,
        ) {
            Some(sample) => Ok(sample),
            None => Err(TimeSourceError::Parse),
        },
    }
}

} // verus!
