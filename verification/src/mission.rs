//! What a mission is given, the rules that admit it, and the plan that
//! follows from it.

use vstd::prelude::*;
use vstd::string::StringExecFns;
use crate::calendar::{
    read_rfc3339, rfc3339_reading, RFC3339_MAX_SECONDS, RFC3339_MIN_SECONDS,
};
use crate::instant::{representable, UtcInstant, NANOS_PER_MILLI, NANOS_PER_SECOND};
use crate::text::{blank, is_blank};

verus! {

/// The longest lead offset a mission may ask for, in milliseconds.
pub const MAX_LEAD_OFFSET_MS: i64 = 1000;

/// The lead offset of a mission that names none, in milliseconds.
pub const DEFAULT_LEAD_OFFSET_MS: i64 = 20;

/// The burst size of a mission that names none.
pub const DEFAULT_BURST_SIZE: u8 = 8;

/// Why a mission does not start.
#[derive(Clone, Copy, Debug, PartialEq, Eq, Structural)]
pub enum ValidationError {
    /// The target identifier is empty or blank.
    MissingUsername,
    /// The credential is empty or blank.
    MissingAccessToken,
    /// The release time is empty or blank.
    MissingReleaseTime,
    /// The release time is not of the form `YYYY-MM-DDTHH:MM:SS`.
    InvalidReleaseTime,
    /// The lead offset is negative or above a second.
    LeadOffsetOutOfRange,
    /// The release, or the fire instant before it, cannot be represented.
    ReleaseTimeOutOfRange,
    /// A mission was started before: only an idle scheduler takes one.
    MissionInProgress,
}

/// What the user hands over to start a mission.
#[derive(Clone, Debug)]
pub struct MissionInput {
    /// The target identifier.
    pub username: String,
    /// The credential, opaque to this library.
    pub access_token: String,
    /// The release instant as `YYYY-MM-DDTHH:MM:SS`, read as UTC.
    pub release_time: String,
    /// How long before the release the burst starts, in milliseconds.
    pub lead_offset_ms: i64,
    /// How many attempts the burst holds.
    pub burst_size: u8,
}

impl MissionInput {
    /// An input with nothing filled in and the default timing.
    pub fn new() -> (input: MissionInput)
        ensures
            input.username@.len() == 0,
            input.access_token@.len() == 0,
            input.release_time@.len() == 0,
            input.lead_offset_ms == DEFAULT_LEAD_OFFSET_MS,
            input.burst_size == DEFAULT_BURST_SIZE,
    {
        MissionInput {
            username: String::new(),
            access_token: String::new(),
            release_time: String::new(),
            lead_offset_ms: DEFAULT_LEAD_OFFSET_MS,
            burst_size: DEFAULT_BURST_SIZE,
        }
    }
}

/// A plan as plain numbers: the release in nanoseconds from the epoch and the
/// lead offset in milliseconds.
pub struct FirePlanView {
    pub release: int,
    pub lead_offset_ms: int,
}

impl FirePlanView {
    /// The instant the burst starts: the release less the lead offset.
    pub open spec fn fire(self) -> int {
        self.release - self.lead_offset_ms * NANOS_PER_MILLI
    }

    /// The lead offset lies between nothing and a second, and both the
    /// release and the fire instant are representable.
    pub open spec fn valid(self) -> bool {
        &&& 0 <= self.lead_offset_ms <= MAX_LEAD_OFFSET_MS
        &&& representable(self.release)
        &&& representable(self.fire())
    }
}

/// The plan that a release and a lead offset give, or why there is none.
pub open spec fn plan_of(release: int, lead_offset_ms: int) -> Result<
    FirePlanView,
    ValidationError,
> {
    let plan = FirePlanView { release, lead_offset_ms };
    if !(0 <= lead_offset_ms <= MAX_LEAD_OFFSET_MS) {
        Err(ValidationError::LeadOffsetOutOfRange)
    } else if !representable(release) || !representable(plan.fire()) {
        Err(ValidationError::ReleaseTimeOutOfRange)
    } else {
        Ok(plan)
    }
}

/// The whole seconds that a release time names: the text is read as RFC 3339
/// with `Z` put behind it, and what it holds below the second is dropped.
pub open spec fn release_seconds_of(release_time: Seq<char>) -> Option<i64> {
    match rfc3339_reading(release_time + seq!['Z']) {
        Some((seconds, _)) => Some(seconds),
        None => None,
    }
}

/// The release in seconds from the epoch that a text field stands for. A
/// field that is blank or cannot be read stands for no release: it is
/// rejected, and says which of the two it is.
pub open spec fn release_timestamp_of(release_time: Seq<char>) -> Result<i64, ValidationError> {
    if blank(release_time) {
        Err(ValidationError::MissingReleaseTime)
    } else {
        match release_seconds_of(release_time) {
            Some(seconds) => Ok(seconds),
            None => Err(ValidationError::InvalidReleaseTime),
        }
    }
}

/// What validation makes of an input: the plan, or the first rule it breaks.
pub open spec fn validation_of(
    username: Seq<char>,
    access_token: Seq<char>,
    release_time: Seq<char>,
    lead_offset_ms: i64,
) -> Result<FirePlanView, ValidationError> {
    if blank(username) {
        Err(ValidationError::MissingUsername)
    } else if blank(access_token) {
        Err(ValidationError::MissingAccessToken)
    } else {
        match release_timestamp_of(release_time) {
            Err(e) => Err(e),
            Ok(seconds) => plan_of(seconds * NANOS_PER_SECOND, lead_offset_ms as int),
        }
    }
}

/// When to fire: fixed once at the start of a mission.
#[derive(Clone, Copy, Debug, PartialEq, Eq, Structural)]
pub struct FirePlan {
    release_instant: UtcInstant,
    lead_offset_ms: i64,
    fire_instant: UtcInstant,
}

impl View for FirePlan {
    type V = FirePlanView;

    closed spec fn view(&self) -> FirePlanView {
        FirePlanView { release: self.release_instant@, lead_offset_ms: self.lead_offset_ms as int }
    }
}

impl FirePlan {
    /// The lead offset is between nothing and a second, and the fire instant
    /// is the release less the lead offset.
    #[verifier::type_invariant]
    pub closed spec fn well_formed(self) -> bool {
        &&& self@.valid()
        &&& self.fire_instant@ == self@.fire()
    }

    /// What the invariant of a plan says of its view.
    pub proof fn lemma_well_formed_is_valid(self)
        requires
            self.well_formed(),
        ensures
            self@.valid(),
    {
    }

    /// The plan for a release and a lead offset in milliseconds.
    pub fn new(release_instant: UtcInstant, lead_offset_ms: i64) -> (r: Result<
        FirePlan,
        ValidationError,
    >)
        ensures
            r matches Ok(plan) ==> Ok::<FirePlanView, ValidationError>(plan@) == plan_of(
                release_instant@,
                lead_offset_ms as int,
            ),
            r matches Err(e) ==> Err::<FirePlanView, ValidationError>(e) == plan_of(
                release_instant@,
                lead_offset_ms as int,
            ),
    {
        if lead_offset_ms < 0 || lead_offset_ms > MAX_LEAD_OFFSET_MS {
            return Err(ValidationError::LeadOffsetOutOfRange);
        }
        let lead_nanos: u64 = lead_offset_ms as u64 * 1_000_000;
        proof {
            use_type_invariant(&release_instant);
        }
        match release_instant.checked_sub_nanos(lead_nanos) {
            Some(fire_instant) => Ok(FirePlan { release_instant, lead_offset_ms, fire_instant }),
            None => Err(ValidationError::ReleaseTimeOutOfRange),
        }
    }

    /// The instant of the release.
    pub fn release_instant(&self) -> (t: UtcInstant)
        ensures
            t@ == self@.release,
    {
        self.release_instant
    }

    /// How long before the release the burst starts, in milliseconds.
    pub fn lead_offset_ms(&self) -> (ms: i64)
        ensures
            ms == self@.lead_offset_ms,
            0 <= ms <= MAX_LEAD_OFFSET_MS,
    {
        proof {
            use_type_invariant(self);
        }
        self.lead_offset_ms
    }

    /// The instant the burst starts: the release less the lead offset.
    pub fn fire_instant(&self) -> (t: UtcInstant)
        ensures
            t@ == self@.fire(),
            self@.valid(),
    {
        proof {
            use_type_invariant(self);
        }
        self.fire_instant
    }
}

/// Reads the whole seconds of a release time. What is read lies between a day
/// before the year 0000 and a day after the year 9999.
pub fn release_seconds(release_time: &str) -> (r: Option<i64>)
    ensures
        r == release_seconds_of(release_time@),
        r matches Some(seconds) ==> RFC3339_MIN_SECONDS <= seconds <= RFC3339_MAX_SECONDS,
{
    let mut text = String::from_str(release_time);
    text.append("Z");
    proof {
        reveal_strlit("Z");
        assert("Z"@ =~= seq!['Z']);
    }
    match read_rfc3339(text.as_str()) {
        Some((seconds, _)) => Some(seconds),
        None => None,
    }
}

/// The release of a mission in seconds from the epoch. A blank field is
/// rejected as missing, a field that does not read as `YYYY-MM-DDTHH:MM:SS`
/// as invalid: neither gives a release.
pub fn release_timestamp(release_time: &str) -> (r: Result<i64, ValidationError>)
    ensures
        r == release_timestamp_of(release_time@),
        r matches Ok(seconds) ==> RFC3339_MIN_SECONDS <= seconds <= RFC3339_MAX_SECONDS,
{
    if is_blank(release_time) {
        return Err(ValidationError::MissingReleaseTime);
    }
    match release_seconds(release_time) {
        Some(seconds) => Ok(seconds),
        None => Err(ValidationError::InvalidReleaseTime),
    }
}

/// Admits a mission or names the first rule it breaks: the username, the
/// access token and the release time must each hold more than white space,
/// the release time must read as a date and time, and the lead offset must
/// lie between nothing and a second. A release time that reads is always in
/// range.
pub fn validate_mission(input: &MissionInput) -> (r: Result<FirePlan, ValidationError>)
    ensures
        !(r matches Err(ValidationError::ReleaseTimeOutOfRange)),
        !(r matches Err(ValidationError::MissionInProgress)),
        r matches Ok(plan) ==> Ok::<FirePlanView, ValidationError>(plan@) == validation_of(
            input.username@,
            input.access_token@,
            input.release_time@,
            input.lead_offset_ms,
        ),
        r matches Err(e) ==> Err::<FirePlanView, ValidationError>(e) == validation_of(
            input.username@,
            input.access_token@,
            input.release_time@,
            input.lead_offset_ms,
        ),
{
    if is_blank(input.username.as_str()) {
        return Err(ValidationError::MissingUsername);
    }
    if is_blank(input.access_token.as_str()) {
        return Err(ValidationError::MissingAccessToken);
    }
    match release_timestamp(input.release_time.as_str()) {
        Err(e) => Err(e),
        Ok(seconds) => match UtcInstant::from_epoch_seconds(seconds) {
            Some(release_instant) => FirePlan::new(release_instant, input.lead_offset_ms),
            // Never taken: a release time that reads lies in the years 0000 to 9999.
            None => Err(ValidationError::ReleaseTimeOutOfRange),
        },
    }
}

} // verus!
