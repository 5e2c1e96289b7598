//! Points on the UTC time line, counted in nanoseconds from the Unix epoch.

use vstd::prelude::*;

verus! {

/// The first representable instant, `-262143-01-01T00:00:00Z`.
pub const MIN_EPOCH_NANOS: i128 = -8_334_601_228_800_000_000_000;

/// The last representable instant, `+262142-12-31T23:59:59.999999999Z`.
pub const MAX_EPOCH_NANOS: i128 = 8_210_266_876_799_999_999_999;

/// Whole seconds of the first representable instant.
pub const MIN_EPOCH_SECONDS: i64 = -8_334_601_228_800;

/// Whole seconds of the last representable instant.
pub const MAX_EPOCH_SECONDS: i64 = 8_210_266_876_799;

/// Nanoseconds in a millisecond.
pub const NANOS_PER_MILLI: i128 = 1_000_000;

/// Nanoseconds in a second.
pub const NANOS_PER_SECOND: i128 = 1_000_000_000;

/// Whether a count of nanoseconds from the epoch names a representable instant.
pub open spec fn representable(nanos: int) -> bool {
    MIN_EPOCH_NANOS <= nanos <= MAX_EPOCH_NANOS
}

/// The instant `nanos` nanoseconds from the epoch, where there is one.
pub open spec fn instant_at(nanos: int) -> Option<int> {
    if representable(nanos) {
        Some(nanos)
    } else {
        None
    }
}

/// An instant of UTC. Its view is the number of nanoseconds from
/// `1970-01-01T00:00:00Z`, negative before it.
#[derive(Clone, Copy, Debug, PartialEq, Eq, PartialOrd, Ord, Structural)]
pub struct UtcInstant {
    nanos: i128,
}

impl View for UtcInstant {
    type V = int;

    closed spec fn view(&self) -> int {
        self.nanos as int
    }
}

impl UtcInstant {
    /// Every instant lies in the representable range.
    #[verifier::type_invariant]
    pub open spec fn in_range(self) -> bool {
        representable(self@)
    }

    /// Milliseconds from the epoch, rounded towards the past.
    pub open spec fn millis(self) -> int {
        self@ / (NANOS_PER_MILLI as int)
    }

    /// The Unix epoch itself.
    pub fn epoch() -> (t: UtcInstant)
        ensures
            t@ == 0,
    {
        UtcInstant { nanos: 0 }
    }

    /// The instant `nanos` nanoseconds from the epoch; `None` outside the
    /// representable range.
    pub fn from_epoch_nanos(nanos: i128) -> (r: Option<UtcInstant>)
        ensures
            r.is_some() == representable(nanos as int),
            r matches Some(t) ==> t@ == nanos,
    {
        if MIN_EPOCH_NANOS <= nanos && nanos <= MAX_EPOCH_NANOS {
            Some(UtcInstant { nanos })
        } else {
            None
        }
    }

    /// The instant `millis` milliseconds from the epoch; `None` outside the
    /// representable range.
    pub fn from_epoch_millis(millis: i64) -> (r: Option<UtcInstant>)
        ensures
            r.is_some() == representable(millis * NANOS_PER_MILLI),
            r matches Some(t) ==> t@ == millis * NANOS_PER_MILLI,
    {
        UtcInstant::from_epoch_nanos(millis as i128 * NANOS_PER_MILLI)
    }

    /// The instant `seconds` whole seconds from the epoch; `None` outside the
    /// representable range.
    pub fn from_epoch_seconds(seconds: i64) -> (r: Option<UtcInstant>)
        ensures
            r.is_some() == representable(seconds * NANOS_PER_SECOND),
            r matches Some(t) ==> t@ == seconds * NANOS_PER_SECOND,
    {
        UtcInstant::from_epoch_nanos(seconds as i128 * NANOS_PER_SECOND)
    }

    /// The instant `subsec_nanos` nanoseconds after the whole second `seconds`.
    /// A leap second, written as a nanosecond count of a thousand million or
    /// more, is folded into the second that follows.
    pub fn from_parts(seconds: i64, subsec_nanos: u32) -> (r: Option<UtcInstant>)
        ensures
            r.is_some() == representable(seconds * NANOS_PER_SECOND + subsec_nanos),
            r matches Some(t) ==> t@ == seconds * NANOS_PER_SECOND + subsec_nanos,
    {
        UtcInstant::from_epoch_nanos(seconds as i128 * NANOS_PER_SECOND + subsec_nanos as i128)
    }

    /// Nanoseconds from the epoch.
    pub fn epoch_nanos(&self) -> (n: i128)
        ensures
            n == self@,
            representable(n as int),
    {
        proof {
            use_type_invariant(self);
        }
        self.nanos
    }

    /// Milliseconds from the epoch, rounded towards the past.
    pub fn epoch_millis(&self) -> (ms: i64)
        ensures
            ms == self.millis(),
    {
        proof {
            use_type_invariant(self);
        }
        if self.nanos >= 0 {
            (self.nanos / NANOS_PER_MILLI) as i64
        } else {
            let up: i128 = (-self.nanos + (NANOS_PER_MILLI - 1)) / NANOS_PER_MILLI;
            (-up) as i64
        }
    }

    /// Whole seconds from the epoch, rounded towards the past.
    pub fn epoch_seconds(&self) -> (seconds: i64)
        ensures
            seconds == self@ / (NANOS_PER_SECOND as int),
    {
        proof {
            use_type_invariant(self);
        }
        if self.nanos >= 0 {
            (self.nanos / NANOS_PER_SECOND) as i64
        } else {
            let up: i128 = (-self.nanos + (NANOS_PER_SECOND - 1)) / NANOS_PER_SECOND;
            (-up) as i64
        }
    }

    /// The instant `nanos` nanoseconds later; `None` where that leaves the
    /// representable range.
    pub fn checked_add_nanos(&self, nanos: u64) -> (r: Option<UtcInstant>)
        ensures
            r.is_some() == representable(self@ + nanos),
            r matches Some(t) ==> t@ == self@ + nanos,
    {
        proof {
            use_type_invariant(self);
        }
        UtcInstant::from_epoch_nanos(self.nanos + nanos as i128)
    }

    /// The instant `nanos` nanoseconds earlier; `None` where that leaves the
    /// representable range.
    pub fn checked_sub_nanos(&self, nanos: u64) -> (r: Option<UtcInstant>)
        ensures
            r.is_some() == representable(self@ - nanos),
            r matches Some(t) ==> t@ == self@ - nanos,
    {
        proof {
            use_type_invariant(self);
        }
        UtcInstant::from_epoch_nanos(self.nanos - nanos as i128)
    }

    /// Nanoseconds from `self` to `later`, negative where `later` is earlier.
    pub fn nanos_until(&self, later: &UtcInstant) -> (d: i128)
        ensures
            d == later@ - self@,
    {
        proof {
            use_type_invariant(self);
            use_type_invariant(later);
        }
        later.nanos - self.nanos
    }

    /// Milliseconds from `self` to `later`, each first rounded to its
    /// millisecond.
    pub fn millis_until(&self, later: &UtcInstant) -> (d: i64)
        ensures
            d == later.millis() - self.millis(),
    {
        proof {
            use_type_invariant(self);
            use_type_invariant(later);
        }
        later.epoch_millis() - self.epoch_millis()
    }
}

/// An instant has the same view as another exactly when the two are equal.
pub proof fn lemma_instant_determined_by_view(a: UtcInstant, b: UtcInstant)
    ensures
        a@ == b@ <==> a == b,
{
}

} // verus!
