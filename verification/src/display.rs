//! Spans of time cut into the parts that a reader is shown.

use vstd::prelude::*;
use crate::instant::{UtcInstant, NANOS_PER_SECOND};

verus! {

/// The time left to the fire instant, cut into what a progress entry shows.
#[derive(Clone, Copy, Debug, PartialEq, Eq, Structural)]
pub enum RemainingDisplay {
    /// Nothing is left.
    Firing,
    /// Under a second: the milliseconds.
    Millis(i64),
    /// Under a minute: whole seconds and tenths of a second.
    Seconds { seconds: i64, tenths: i64 },
    /// A minute or more: whole minutes and whole seconds.
    Minutes { minutes: i64, seconds: i64 },
}

/// How the time left is cut for display.
pub open spec fn remaining_display_of(remaining_ms: int) -> RemainingDisplay {
    if remaining_ms <= 0 {
        RemainingDisplay::Firing
    } else if remaining_ms >= 60_000 {
        RemainingDisplay::Minutes {
            minutes: (remaining_ms / 60_000) as i64,
            seconds: ((remaining_ms % 60_000) / 1_000) as i64,
        }
    } else if remaining_ms >= 1_000 {
        RemainingDisplay::Seconds {
            seconds: (remaining_ms / 1_000) as i64,
            tenths: ((remaining_ms % 1_000) / 100) as i64,
        }
    } else {
        RemainingDisplay::Millis(remaining_ms as i64)
    }
}

/// Cuts the time left into what a progress entry shows.
pub fn describe_remaining(remaining_ms: i64) -> (display: RemainingDisplay)
    ensures
        display == remaining_display_of(remaining_ms as int),
{
    if remaining_ms <= 0 {
        RemainingDisplay::Firing
    } else if remaining_ms >= 60_000 {
        RemainingDisplay::Minutes {
            minutes: remaining_ms / 60_000,
            seconds: (remaining_ms % 60_000) / 1_000,
        }
    } else if remaining_ms >= 1_000 {
        RemainingDisplay::Seconds {
            seconds: remaining_ms / 1_000,
            tenths: (remaining_ms % 1_000) / 100,
        }
    } else {
        RemainingDisplay::Millis(remaining_ms)
    }
}

/// The time left to the release, cut into what the form shows.
#[derive(Clone, Copy, Debug, PartialEq, Eq, Structural)]
pub enum ReleaseCountdown {
    /// The release is now or has passed.
    Past,
    /// Under a minute: the seconds.
    Seconds(i64),
    /// Under an hour: whole minutes and seconds.
    Minutes { minutes: i64, seconds: i64 },
    /// An hour or more: whole hours, minutes and seconds.
    Hours { hours: i64, minutes: i64, seconds: i64 },
}

/// How a count of whole seconds to the release is cut for display.
pub open spec fn release_countdown_of(seconds: int) -> ReleaseCountdown {
    if seconds <= 0 {
        ReleaseCountdown::Past
    } else if seconds >= 3_600 {
        ReleaseCountdown::Hours {
            hours: (seconds / 3_600) as i64,
            minutes: ((seconds / 60) % 60) as i64,
            seconds: (seconds % 60) as i64,
        }
    } else if seconds >= 60 {
        ReleaseCountdown::Minutes { minutes: (seconds / 60) as i64, seconds: (seconds % 60) as i64 }
    } else {
        ReleaseCountdown::Seconds(seconds as i64)
    }
}

/// The whole seconds from `now` to `release`, rounded towards zero.
pub open spec fn seconds_to_release_of(now: int, release: int) -> int {
    if release >= now {
        (release - now) / (NANOS_PER_SECOND as int)
    } else {
        -((now - release) / (NANOS_PER_SECOND as int))
    }
}

/// Cuts the time from `now` to `release` into what the form shows: the
/// release counts as past until a whole second lies before it.
pub fn release_countdown(now: &UtcInstant, release: &UtcInstant) -> (countdown: ReleaseCountdown)
    ensures
        countdown == release_countdown_of(seconds_to_release_of(now@, release@)),
{
    let gap = now.nanos_until(release);
    proof {
        use_type_invariant(now);
        use_type_invariant(release);
    }
    if gap < NANOS_PER_SECOND {
        return ReleaseCountdown::Past;
    }
    let seconds: i64 = (gap / NANOS_PER_SECOND) as i64;
    if seconds >= 3_600 {
        ReleaseCountdown::Hours {
            hours: seconds / 3_600,
            minutes: (seconds / 60) % 60,
            seconds: seconds % 60,
        }
    } else if seconds >= 60 {
        ReleaseCountdown::Minutes { minutes: seconds / 60, seconds: seconds % 60 }
    } else {
        ReleaseCountdown::Seconds(seconds)
    }
}

} // verus!
