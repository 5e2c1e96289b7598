//! The last good estimate of UTC, carried forward between synchronisations by
//! a monotonic clock.

use vstd::prelude::*;
use crate::estimator::{Confidence, TimeEstimate};
use crate::instant::{representable, UtcInstant};

verus! {

/// The age, in nanoseconds, beyond which an estimate is due for replacement.
pub const RESYNC_INTERVAL_NANOS: u64 = 45_000_000_000;

/// Nanoseconds that passed on the monotonic clock from `captured_at` to `now`;
/// zero where `now` is the earlier reading.
pub open spec fn elapsed_between(captured_at: u64, now: u64) -> int {
    if now >= captured_at {
        now - captured_at
    } else {
        0
    }
}

/// What the cache holds as plain numbers: the authoritative instant in
/// nanoseconds from the epoch, and the monotonic reading it was taken at.
pub struct EstimateView {
    pub authoritative: int,
    pub captured_at: u64,
}

impl EstimateView {
    /// The instant this estimate stands for at the monotonic reading `now`.
    pub open spec fn at(self, now: u64) -> int {
        self.authoritative + elapsed_between(self.captured_at, now)
    }

    /// Whether the estimate is no older than the re-sync interval at `now`.
    pub open spec fn fresh_at(self, now: u64) -> bool {
        elapsed_between(self.captured_at, now) <= RESYNC_INTERVAL_NANOS
    }
}

/// What a read of the cache gives for a state of it: the extrapolated instant,
/// or `None` where a synchronisation is due.
pub open spec fn reading_of(cache: Option<EstimateView>, now: u64) -> Option<int> {
    match cache {
        Some(e) => if e.fresh_at(now) && representable(e.at(now)) {
            Some(e.at(now))
        } else {
            None
        },
        None => None,
    }
}

/// What the cache serves, whatever its age, for a state of it.
pub open spec fn extrapolation_of(cache: Option<EstimateView>, now: u64) -> Option<int> {
    match cache {
        Some(e) => if representable(e.at(now)) {
            Some(e.at(now))
        } else {
            None
        },
        None => None,
    }
}

/// Where a reading of the present comes from.
#[derive(Clone, Copy, Debug, PartialEq, Eq, Structural)]
pub enum TimeBasis {
    /// An estimate that the cache holds, fresh or just stored.
    Synchronized,
    /// An estimate older than the re-sync interval, kept because the
    /// synchronisation that was due has failed.
    StaleEstimate,
    /// The local system clock: nothing was ever synchronised.
    SystemClock,
}

/// What a finished synchronisation does to a cache, and the present that is
/// served after it. A high-confidence estimate replaces what was held. A
/// low-confidence one leaves the cache alone: the held estimate is carried
/// forward, and only where there is none to carry is the estimate's own
/// instant, the system clock, served.
pub open spec fn resync_of(
    cache: Option<EstimateView>,
    instant: int,
    confidence: Confidence,
    now: u64,
) -> (Option<EstimateView>, int, TimeBasis) {
    match confidence {
        Confidence::High => (
            Some(EstimateView { authoritative: instant, captured_at: now }),
            instant,
            TimeBasis::Synchronized,
        ),
        Confidence::Low => match extrapolation_of(cache, now) {
            Some(carried) => (cache, carried, TimeBasis::StaleEstimate),
            None => (cache, instant, TimeBasis::SystemClock),
        },
    }
}

/// A latency-compensated reading of UTC and the monotonic instant it was
/// captured at.
#[derive(Clone, Copy, Debug, PartialEq, Eq, Structural)]
pub struct ClockEstimate {
    authoritative_instant: UtcInstant,
    captured_at: u64,
}

impl View for ClockEstimate {
    type V = EstimateView;

    closed spec fn view(&self) -> EstimateView {
        EstimateView { authoritative: self.authoritative_instant@, captured_at: self.captured_at }
    }
}

impl ClockEstimate {
    /// An estimate taken at the monotonic reading `captured_at`.
    pub fn new(authoritative_instant: UtcInstant, captured_at: u64) -> (e: ClockEstimate)
        ensures
            e@.authoritative == authoritative_instant@,
            e@.captured_at == captured_at,
    {
        ClockEstimate { authoritative_instant, captured_at }
    }

    /// The estimated instant at the moment of capture.
    pub fn authoritative_instant(&self) -> (t: UtcInstant)
        ensures
            t@ == self@.authoritative,
    {
        self.authoritative_instant
    }

    /// The monotonic reading at the moment of capture, in nanoseconds.
    pub fn captured_at(&self) -> (m: u64)
        ensures
            m == self@.captured_at,
    {
        self.captured_at
    }
}

/// The outcome of reading the cache.
#[derive(Clone, Copy, Debug, PartialEq, Eq, Structural)]
pub enum CacheReading {
    /// The extrapolated present.
    Now(UtcInstant),
    /// No estimate, or one older than the re-sync interval.
    ResyncDue,
}

impl CacheReading {
    /// The reading as a plain value.
    pub open spec fn instant(self) -> Option<int> {
        match self {
            CacheReading::Now(t) => Some(t@),
            CacheReading::ResyncDue => None,
        }
    }
}

/// Holds at most one estimate.
#[derive(Clone, Copy, Debug)]
pub struct ClockCache {
    estimate: Option<ClockEstimate>,
}

impl View for ClockCache {
    type V = Option<EstimateView>;

    closed spec fn view(&self) -> Option<EstimateView> {
        match self.estimate {
            Some(e) => Some(e@),
            None => None,
        }
    }
}

impl ClockCache {
    /// A cache that has never been synchronised.
    pub fn new() -> (cache: ClockCache)
        ensures
            cache@ is None,
    {
        ClockCache { estimate: None }
    }

    /// Whether an estimate has ever been stored.
    pub fn has_estimate(&self) -> (b: bool)
        ensures
            b == self@.is_some(),
    {
        self.estimate.is_some()
    }

    /// The estimate that is held.
    pub fn estimate(&self) -> (e: Option<ClockEstimate>)
        ensures
            e.is_some() == self@.is_some(),
            e matches Some(est) ==> est@ == self@->0,
    {
        self.estimate
    }

    /// Replaces whatever was held by a fresh estimate.
    pub fn store(&mut self, authoritative_instant: UtcInstant, captured_at: u64)
        ensures
            final(self)@ == Some(
                EstimateView { authoritative: authoritative_instant@, captured_at },
            ),
    {
        self.estimate = Some(ClockEstimate::new(authoritative_instant, captured_at));
    }

    /// The present according to the cache: the authoritative instant plus the
    /// monotonic time that has passed since its capture, as long as the
    /// estimate is within the re-sync interval. An estimate whose
    /// extrapolation would leave the representable range counts as absent.
    pub fn get_now(&self, now: u64) -> (r: CacheReading)
        ensures
            r.instant() == reading_of(self@, now),
    {
        match self.estimate {
            Some(e) => {
                let elapsed: u64 = if now >= e.captured_at {
                    now - e.captured_at
                } else {
                    0
                };
                if elapsed <= RESYNC_INTERVAL_NANOS {
                    match e.authoritative_instant.checked_add_nanos(elapsed) {
                        Some(t) => CacheReading::Now(t),
                        None => CacheReading::ResyncDue,
                    }
                } else {
                    CacheReading::ResyncDue
                }
            },
            None => CacheReading::ResyncDue,
        }
    }

    /// The held estimate carried forward to `now` whatever its age: what is
    /// served while a synchronisation keeps failing.
    pub fn extrapolate(&self, now: u64) -> (r: Option<UtcInstant>)
        ensures
            r.is_some() == extrapolation_of(self@, now).is_some(),
            r matches Some(t) ==> Some(t@) == extrapolation_of(self@, now),
    {
        match self.estimate {
            Some(e) => {
                let elapsed: u64 = if now >= e.captured_at {
                    now - e.captured_at
                } else {
                    0
                };
                e.authoritative_instant.checked_add_nanos(elapsed)
            },
            None => None,
        }
    }

    /// Takes in the outcome of a synchronisation that ended at the monotonic
    /// reading `now`, and gives the present to go on with.
    pub fn resync(&mut self, estimate: &TimeEstimate, now: u64) -> (r: (UtcInstant, TimeBasis))
        ensures
            (final(self)@, r.0@, r.1) == resync_of(
                old(self)@,
                estimate.instant@,
                estimate.confidence,
                now,
            ),
    {
        match estimate.confidence {
            Confidence::High => {
                self.store(estimate.instant, now);
                (estimate.instant, TimeBasis::Synchronized)
            },
            Confidence::Low => match self.extrapolate(now) {
                Some(carried) => (carried, TimeBasis::StaleEstimate),
                None => (estimate.instant, TimeBasis::SystemClock),
            },
        }
    }
}

/// Two reads of one estimate inside the re-sync window differ by exactly the
/// monotonic time between them: the age of the estimate leaves no trace.
pub proof fn lemma_reads_differ_by_elapsed_time(cache: Option<EstimateView>, first: u64, second: u64)
    requires
        cache matches Some(e) && e.captured_at <= first,
        first <= second,
        reading_of(cache, first) is Some,
        reading_of(cache, second) is Some,
    ensures
        reading_of(cache, second)->0 - reading_of(cache, first)->0 == second - first,
{
}

} // verus!
