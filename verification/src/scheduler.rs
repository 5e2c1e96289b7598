//! The fire scheduler: from mission start, through the adaptive wait, to the
//! instant the burst leaves. The scheduler decides; its caller sleeps,
//! synchronises and dispatches, and tells the scheduler what came of it.

use vstd::prelude::*;
use crate::clock_cache::{
    elapsed_between, reading_of, resync_of, CacheReading, ClockCache, EstimateView, TimeBasis,
};
use crate::estimator::TimeEstimate;
use crate::instant::{UtcInstant, NANOS_PER_MILLI};
use crate::mission::{validate_mission, validation_of, FirePlan, FirePlanView, MissionInput, ValidationError};

verus! {

/// How often a progress entry is due, in milliseconds, with `remaining_ms`
/// left to the fire instant: the closer the deadline, the denser the entries.
pub open spec fn log_cadence_of(remaining_ms: int) -> int {
    if remaining_ms < 5_000 {
        100
    } else if remaining_ms < 30_000 {
        1_000
    } else if remaining_ms < 120_000 {
        3_000
    } else {
        5_000
    }
}

/// How long to sleep before the next poll, in milliseconds, with
/// `remaining_ms` left to the fire instant.
pub open spec fn poll_sleep_of(remaining_ms: int) -> int {
    if remaining_ms < 5_000 {
        1
    } else if remaining_ms < 30_000 {
        10
    } else if remaining_ms < 120_000 {
        100
    } else {
        1_000
    }
}

/// The cadence of progress entries, in milliseconds, with `remaining_ms`
/// left: a tenth of a second under five seconds, a second under thirty, three
/// seconds under two minutes, five seconds beyond.
pub fn log_cadence_ms(remaining_ms: i64) -> (cadence: u64)
    ensures
        cadence == log_cadence_of(remaining_ms as int),
{
    if remaining_ms < 5_000 {
        100
    } else if remaining_ms < 30_000 {
        1_000
    } else if remaining_ms < 120_000 {
        3_000
    } else {
        5_000
    }
}

/// The sleep before the next poll, in milliseconds, with `remaining_ms` left:
/// a millisecond under five seconds, ten under thirty, a hundred under two
/// minutes, a second beyond.
pub fn poll_sleep_ms(remaining_ms: i64) -> (sleep: u64)
    ensures
        sleep == poll_sleep_of(remaining_ms as int),
{
    if remaining_ms < 5_000 {
        1
    } else if remaining_ms < 30_000 {
        10
    } else if remaining_ms < 120_000 {
        100
    } else {
        1_000
    }
}

/// Where a mission stands.
#[derive(Clone, Copy, Debug, PartialEq, Eq, Structural)]
pub enum Phase {
    Idle,
    Waiting,
    Firing,
    Done,
}

/// The scheduler as plain values.
pub struct SchedulerView {
    pub phase: Phase,
    pub plan: Option<FirePlanView>,
    pub cache: Option<EstimateView>,
    /// The monotonic reading at which the last progress entry was due.
    pub last_progress_at: u64,
    pub burst_size: u8,
}

impl SchedulerView {
    /// Outside `Idle` there is a plan, and it is a valid one.
    pub open spec fn well_formed(self) -> bool {
        match self.plan {
            Some(plan) => !(self.phase is Idle) && plan.valid(),
            None => self.phase is Idle,
        }
    }

    /// A scheduler with no mission.
    pub open spec fn idle(burst_size: u8) -> SchedulerView {
        SchedulerView {
            phase: Phase::Idle,
            plan: None,
            cache: None,
            last_progress_at: 0,
            burst_size,
        }
    }
}

/// What the scheduler asks of its caller, as plain values.
pub enum ActionView {
    /// No mission is waiting: there is nothing to do.
    Idle,
    /// Run a round of time-source queries and report its estimate.
    Resync,
    /// Sleep for `sleep_ms`, then poll again.
    Wait { now: int, remaining_ms: int, sleep_ms: int, progress: bool },
    /// Sleep for `corrective_sleep_nanos`, then dispatch the burst.
    Fire { now: int, burst_size: u8, corrective_sleep_nanos: int },
}

/// What the scheduler asks of its caller.
#[derive(Clone, Copy, Debug, PartialEq, Eq, Structural)]
pub enum SchedulerAction {
    /// No mission is waiting: there is nothing to do.
    Idle,
    /// Run a round of time-source queries and report its estimate.
    Resync,
    /// Sleep for `sleep_ms` milliseconds, then poll again. A progress entry
    /// is to be written where `progress` is set.
    Wait { now: UtcInstant, remaining_ms: i64, sleep_ms: u64, progress: bool },
    /// The deadline is reached: sleep out what is left of the gap to the fire
    /// instant, then dispatch `burst_size` attempts.
    Fire { now: UtcInstant, burst_size: u8, corrective_sleep_nanos: u64 },
}

impl View for SchedulerAction {
    type V = ActionView;

    open spec fn view(&self) -> ActionView {
        match *self {
            SchedulerAction::Idle => ActionView::Idle,
            SchedulerAction::Resync => ActionView::Resync,
            SchedulerAction::Wait { now, remaining_ms, sleep_ms, progress } => ActionView::Wait {
                now: now@,
                remaining_ms: remaining_ms as int,
                sleep_ms: sleep_ms as int,
                progress,
            },
            SchedulerAction::Fire { now, burst_size, corrective_sleep_nanos } => ActionView::Fire {
                now: now@,
                burst_size,
                corrective_sleep_nanos: corrective_sleep_nanos as int,
            },
        }
    }
}

/// Milliseconds left from `now` to the fire instant of `plan`, each rounded
/// to its millisecond first.
pub open spec fn remaining_ms_of(plan: FirePlanView, now: int) -> int {
    plan.fire() / (NANOS_PER_MILLI as int) - now / (NANOS_PER_MILLI as int)
}

/// Whether a progress entry is due at the monotonic reading `now`: the
/// cadence for `remaining_ms` has passed since the last one.
pub open spec fn progress_due(last_progress_at: u64, now: u64, remaining_ms: int) -> bool {
    elapsed_between(last_progress_at, now) >= log_cadence_of(remaining_ms) * NANOS_PER_MILLI
}

/// The gap that is left from `now` to the fire instant, in nanoseconds.
pub open spec fn residual_gap_of(plan: FirePlanView, now: int) -> int {
    if plan.fire() > now {
        plan.fire() - now
    } else {
        0
    }
}

/// One step of a waiting scheduler that takes the present to be `current`.
pub open spec fn advance_of(s: SchedulerView, current: int, now: u64) -> (
    SchedulerView,
    ActionView,
) {
    let plan = s.plan->0;
    let remaining_ms = remaining_ms_of(plan, current);
    if remaining_ms <= 0 {
        (
            SchedulerView { phase: Phase::Firing, ..s },
            ActionView::Fire {
                now: current,
                burst_size: s.burst_size,
                corrective_sleep_nanos: residual_gap_of(plan, current),
            },
        )
    } else {
        let progress = progress_due(s.last_progress_at, now, remaining_ms);
        (
            SchedulerView {
                last_progress_at: if progress {
                    now
                } else {
                    s.last_progress_at
                },
                ..s
            },
            ActionView::Wait {
                now: current,
                remaining_ms,
                sleep_ms: poll_sleep_of(remaining_ms),
                progress,
            },
        )
    }
}

/// What a poll at the monotonic reading `now` does.
pub open spec fn poll_of(s: SchedulerView, now: u64) -> (SchedulerView, ActionView) {
    if !(s.phase is Waiting) {
        (s, ActionView::Idle)
    } else {
        match reading_of(s.cache, now) {
            None => (s, ActionView::Resync),
            Some(current) => advance_of(s, current, now),
        }
    }
}

/// What the report of a finished synchronisation does.
pub open spec fn resync_completed_of(
    s: SchedulerView,
    estimate: TimeEstimate,
    now: u64,
) -> (SchedulerView, Option<TimeBasis>, ActionView) {
    if !(s.phase is Waiting) {
        (s, None, ActionView::Idle)
    } else {
        let (cache, current, basis) = resync_of(s.cache, estimate.instant@, estimate.confidence, now);
        let (next, action) = advance_of(SchedulerView { cache, ..s }, current, now);
        (next, Some(basis), action)
    }
}

/// What starting a mission does.
pub open spec fn start_of(
    s: SchedulerView,
    validation: Result<FirePlanView, ValidationError>,
    burst_size: u8,
    now: u64,
) -> (SchedulerView, Result<(), ValidationError>) {
    if !(s.phase is Idle) {
        (s, Err(ValidationError::MissionInProgress))
    } else {
        match validation {
            Ok(plan) => (
                SchedulerView {
                    phase: Phase::Waiting,
                    plan: Some(plan),
                    cache: None,
                    last_progress_at: now,
                    burst_size,
                },
                Ok(()),
            ),
            Err(e) => (s, Err(e)),
        }
    }
}

/// Milliseconds from the release of `plan` to `finished_at`, negative where
/// the burst was over before the release.
pub open spec fn release_offset_ms_of(plan: FirePlanView, finished_at: int) -> int {
    finished_at / (NANOS_PER_MILLI as int) - plan.release / (NANOS_PER_MILLI as int)
}

/// Drives one mission: `Idle`, then `Waiting`, `Firing` and `Done`.
#[derive(Clone, Copy, Debug)]
pub struct FireScheduler {
    phase: Phase,
    plan: Option<FirePlan>,
    cache: ClockCache,
    last_progress_at: u64,
    burst_size: u8,
}

impl View for FireScheduler {
    type V = SchedulerView;

    closed spec fn view(&self) -> SchedulerView {
        SchedulerView {
            phase: self.phase,
            plan: match self.plan {
                Some(plan) => Some(plan@),
                None => None,
            },
            cache: self.cache@,
            last_progress_at: self.last_progress_at,
            burst_size: self.burst_size,
        }
    }
}

impl FireScheduler {
    /// Outside `Idle` the scheduler holds a plan.
    #[verifier::type_invariant]
    pub closed spec fn well_formed(self) -> bool {
        self.plan.is_some() == !(self.phase is Idle)
    }

    /// A scheduler with no mission.
    pub fn new() -> (scheduler: FireScheduler)
        ensures
            scheduler@ == SchedulerView::idle(0),
    {
        FireScheduler {
            phase: Phase::Idle,
            plan: None,
            cache: ClockCache::new(),
            last_progress_at: 0,
            burst_size: 0,
        }
    }

    /// Where the mission stands.
    pub fn phase(&self) -> (phase: Phase)
        ensures
            phase == self@.phase,
            self@.well_formed(),
    {
        proof {
            use_type_invariant(self);
        }
        if let Some(plan) = &self.plan {
            proof {
                use_type_invariant(plan);
                plan.lemma_well_formed_is_valid();
            }
        }
        self.phase
    }

    /// The plan of the mission, once there is one.
    pub fn plan(&self) -> (plan: Option<FirePlan>)
        ensures
            plan.is_some() == self@.plan.is_some(),
            plan matches Some(p) ==> self@.plan == Some(p@),
    {
        self.plan
    }

    /// Whether the present is read off a synchronised estimate, and not off
    /// the system clock.
    pub fn has_estimate(&self) -> (b: bool)
        ensures
            b == self@.cache.is_some(),
    {
        self.cache.has_estimate()
    }

    /// Starts a mission at the monotonic reading `now`. An idle scheduler
    /// with an input that passes validation goes to `Waiting`; anything else
    /// leaves the scheduler as it was and says why.
    pub fn start(&mut self, input: &MissionInput, now: u64) -> (r: Result<(), ValidationError>)
        ensures
            !(r matches Err(ValidationError::ReleaseTimeOutOfRange)),
            (final(self)@, r) == start_of(
                old(self)@,
                validation_of(
                    input.username@,
                    input.access_token@,
                    input.release_time@,
                    input.lead_offset_ms,
                ),
                input.burst_size,
                now,
            ),
    {
        proof {
            use_type_invariant(&*self);
        }
        match self.phase {
            Phase::Idle => match validate_mission(input) {
                Ok(plan) => {
                    *self = FireScheduler {
                        phase: Phase::Waiting,
                        plan: Some(plan),
                        cache: ClockCache::new(),
                        last_progress_at: now,
                        burst_size: input.burst_size,
                    };
                    Ok(())
                },
                Err(e) => Err(e),
            },
            _ => Err(ValidationError::MissionInProgress),
        }
    }

    /// One step of a waiting scheduler that takes the present to be
    /// `current`.
    fn advance(&mut self, current: UtcInstant, now: u64) -> (action: SchedulerAction)
        requires
            old(self)@.phase is Waiting,
        ensures
            (final(self)@, action@) == advance_of(old(self)@, current@, now),
    {
        proof {
            use_type_invariant(&*self);
        }
        let plan = match self.plan {
            Some(plan) => plan,
            None => {
                // Never taken: a waiting scheduler holds a plan.
                return SchedulerAction::Idle;
            },
        };
        let fire_instant = plan.fire_instant();
        let remaining_ms = current.millis_until(&fire_instant);
        if remaining_ms <= 0 {
            let gap = current.nanos_until(&fire_instant);
            proof {
                use_type_invariant(&current);
                use_type_invariant(&fire_instant);
            }
            let corrective_sleep_nanos: u64 = if gap > 0 {
                gap as u64
            } else {
                0
            };
            *self = FireScheduler {
                phase: Phase::Firing,
                plan: self.plan,
                cache: self.cache,
                last_progress_at: self.last_progress_at,
                burst_size: self.burst_size,
            };
            SchedulerAction::Fire {
                now: current,
                burst_size: self.burst_size,
                corrective_sleep_nanos,
            }
        } else {
            let elapsed: u64 = if now >= self.last_progress_at {
                now - self.last_progress_at
            } else {
                0
            };
            let progress = elapsed >= log_cadence_ms(remaining_ms) * 1_000_000;
            if progress {
                *self = FireScheduler {
                    phase: self.phase,
                    plan: self.plan,
                    cache: self.cache,
                    last_progress_at: now,
                    burst_size: self.burst_size,
                };
            }
            SchedulerAction::Wait {
                now: current,
                remaining_ms,
                sleep_ms: poll_sleep_ms(remaining_ms),
                progress,
            }
        }
    }

    /// Polls a waiting scheduler at the monotonic reading `now`. Where the
    /// cache has a fresh estimate the scheduler compares the extrapolated
    /// present with the fire instant: it goes to `Firing` once nothing is
    /// left, and otherwise names the sleep before the next poll and says
    /// whether a progress entry is due. Where the cache has none it asks for
    /// a synchronisation and changes nothing.
    pub fn poll(&mut self, now: u64) -> (action: SchedulerAction)
        ensures
            (final(self)@, action@) == poll_of(old(self)@, now),
    {
        match self.phase {
            Phase::Waiting => match self.cache.get_now(now) {
                CacheReading::Now(current) => self.advance(current, now),
                CacheReading::ResyncDue => SchedulerAction::Resync,
            },
            _ => SchedulerAction::Idle,
        }
    }

    /// Takes in the estimate of the synchronisation that a poll asked for,
    /// finished at the monotonic reading `now`, and goes on as a poll does
    /// with the present that the cache serves after it. The basis of that
    /// present comes back with the action.
    pub fn resync_completed(&mut self, estimate: &TimeEstimate, now: u64) -> (r: (
        Option<TimeBasis>,
        SchedulerAction,
    ))
        ensures
            (final(self)@, r.0, r.1@) == resync_completed_of(old(self)@, *estimate, now),
    {
        proof {
            use_type_invariant(&*self);
        }
        match self.phase {
            Phase::Waiting => {
                let mut cache = self.cache;
                let (current, basis) = cache.resync(estimate, now);
                *self = FireScheduler {
                    phase: self.phase,
                    plan: self.plan,
                    cache,
                    last_progress_at: self.last_progress_at,
                    burst_size: self.burst_size,
                };
                let action = self.advance(current, now);
                (Some(basis), action)
            },
            _ => (None, SchedulerAction::Idle),
        }
    }

    /// Reports that every attempt of the burst has been collected, at the
    /// instant `finished_at`. A firing scheduler goes to `Done` and gives the
    /// offset of that instant from the release, in milliseconds; any other
    /// scheduler stays as it was.
    pub fn burst_completed(&mut self, finished_at: UtcInstant) -> (offset_ms: Option<i64>)
        ensures
            old(self)@.phase is Firing ==> final(self)@ == (SchedulerView {
                phase: Phase::Done,
                ..old(self)@
            }) && offset_ms == Some(
                release_offset_ms_of(old(self)@.plan->0, finished_at@) as i64,
            ),
            !(old(self)@.phase is Firing) ==> final(self)@ == old(self)@ && offset_ms is None,
    {
        proof {
            use_type_invariant(&*self);
        }
        match (self.phase, self.plan) {
            (Phase::Firing, Some(plan)) => {
                let offset = plan.release_instant().millis_until(&finished_at);
                *self = FireScheduler {
                    phase: Phase::Done,
                    plan: self.plan,
                    cache: self.cache,
                    last_progress_at: self.last_progress_at,
                    burst_size: self.burst_size,
                };
                Some(offset)
            },
            _ => None,
        }
    }

    /// Honours a stop request: a waiting scheduler drops its mission and is
    /// idle again. Once firing has begun the mission runs to its end, and the
    /// request is refused.
    pub fn cancel(&mut self) -> (cancelled: bool)
        ensures
            cancelled == (old(self)@.phase is Waiting),
            cancelled ==> final(self)@ == SchedulerView::idle(old(self)@.burst_size),
            !cancelled ==> final(self)@ == old(self)@,
    {
        match self.phase {
            Phase::Waiting => {
                *self = FireScheduler {
                    phase: Phase::Idle,
                    plan: None,
                    cache: ClockCache::new(),
                    last_progress_at: 0,
                    burst_size: self.burst_size,
                };
                true
            },
            _ => false,
        }
    }
}

/// A well-formed scheduler fires no earlier than its fire instant: when a
/// poll answers `Fire`, the present it goes by has reached the millisecond
/// of the fire instant, and the present plus the corrective sleep is the fire
/// instant or later. The corrective sleep is shorter than a millisecond.
pub proof fn lemma_poll_fires_no_earlier_than_planned(s: SchedulerView, now: u64)
    requires
        s.well_formed(),
    ensures
        poll_of(s, now).1 matches ActionView::Fire { now: current, corrective_sleep_nanos, .. } ==> {
            &&& s.plan is Some
            &&& current / (NANOS_PER_MILLI as int) >= s.plan->0.fire() / (NANOS_PER_MILLI as int)
            &&& current + corrective_sleep_nanos >= s.plan->0.fire()
            &&& 0 <= corrective_sleep_nanos < NANOS_PER_MILLI
            &&& poll_of(s, now).0.phase is Firing
        },
{
}

/// A well-formed scheduler that is told of a finished synchronisation fires
/// no earlier than its fire instant either.
pub proof fn lemma_resync_fires_no_earlier_than_planned(
    s: SchedulerView,
    estimate: TimeEstimate,
    now: u64,
)
    requires
        s.well_formed(),
    ensures
        resync_completed_of(s, estimate, now).2 matches ActionView::Fire {
            now: current,
            corrective_sleep_nanos,
            ..
        } ==> {
            &&& s.plan is Some
            &&& current + corrective_sleep_nanos >= s.plan->0.fire()
            &&& 0 <= corrective_sleep_nanos < NANOS_PER_MILLI
        },
{
}

/// The sleep that an action names, in nanoseconds; nothing where it names
/// none.
pub open spec fn sleep_nanos_of(action: ActionView) -> int {
    match action {
        ActionView::Wait { sleep_ms, .. } => sleep_ms * NANOS_PER_MILLI,
        _ => 0,
    }
}

/// How far past the fire instant of `plan` a `Fire` comes, in nanoseconds, by
/// the present that the scheduler goes by; nothing for any other action.
pub open spec fn overshoot_of(plan: FirePlanView, action: ActionView) -> int {
    match action {
        ActionView::Fire { now, .. } => now - plan.fire(),
        _ => 0,
    }
}

/// A caller that sleeps as it is told meets the deadline within a
/// millisecond. Where a poll at the monotonic reading `at` answers `Wait`,
/// the caller polls again at `next`, no sooner than the sleep it was told, and
/// no synchronisation falls due, the scheduler goes on waiting or fires; and
/// where it fires, the present it goes by is past the fire instant by less
/// than a millisecond and whatever the caller slept beyond what it was told.
pub proof fn lemma_fire_follows_the_deadline_closely(s: SchedulerView, at: u64, next: u64)
    requires
        s.well_formed(),
        poll_of(s, at).1 is Wait,
        at + sleep_nanos_of(poll_of(s, at).1) <= next,
        reading_of(poll_of(s, at).0.cache, next) is Some,
    ensures
        poll_of(s, at).0.well_formed(),
        poll_of(s, at).0.phase is Waiting,
        poll_of(s, at).0.plan == s.plan,
        poll_of(s, at).0.cache == s.cache,
        poll_of(poll_of(s, at).0, next).1 is Wait || poll_of(poll_of(s, at).0, next).1 is Fire,
        poll_of(poll_of(s, at).0, next).1 is Fire ==> overshoot_of(
            s.plan->0,
            poll_of(poll_of(s, at).0, next).1,
        ) < NANOS_PER_MILLI + (next - at - sleep_nanos_of(poll_of(s, at).1)),
{
}

/// The scheduler after polls at the monotonic readings `polls`, one after
/// another.
pub open spec fn after_polls(s: SchedulerView, polls: Seq<u64>) -> SchedulerView
    decreases polls.len(),
{
    if polls.len() == 0 {
        s
    } else {
        poll_of(after_polls(s, polls.drop_last()), polls.last()).0
    }
}

/// What the poll at place `k` of `polls` answers.
pub open spec fn action_at(s: SchedulerView, polls: Seq<u64>, k: int) -> ActionView {
    poll_of(after_polls(s, polls.take(k)), polls[k]).1
}

/// Whether the caller keeps to what it is told up to the poll at place
/// `last`: after each `Wait` it polls again no sooner than the sleep named and
/// no later than `slack` nanoseconds beyond it, and at no poll is a
/// synchronisation due.
pub open spec fn paced(s: SchedulerView, polls: Seq<u64>, last: int, slack: int) -> bool {
    &&& forall|k: int|
        0 <= k < last ==> polls[k] + sleep_nanos_of(#[trigger] action_at(s, polls, k)) <= polls[k
            + 1] <= polls[k] + sleep_nanos_of(action_at(s, polls, k)) + slack
    &&& forall|k: int|
        0 <= k <= last ==> reading_of(s.cache, #[trigger] polls[k]) is Some
}

/// While a paced caller has not been told to fire, the scheduler keeps
/// waiting on the plan and the estimate it started with.
pub proof fn lemma_paced_scheduler_keeps_waiting(
    s: SchedulerView,
    polls: Seq<u64>,
    last: int,
    slack: int,
    k: int,
)
    requires
        s.well_formed(),
        s.phase is Waiting,
        0 <= k <= last < polls.len(),
        paced(s, polls, last, slack),
        forall|j: int| 0 <= j < k ==> !(#[trigger] action_at(s, polls, j) is Fire),
    ensures
        after_polls(s, polls.take(k)).well_formed(),
        after_polls(s, polls.take(k)).phase is Waiting,
        after_polls(s, polls.take(k)).plan == s.plan,
        after_polls(s, polls.take(k)).cache == s.cache,
        action_at(s, polls, k) is Wait || action_at(s, polls, k) is Fire,
    decreases k,
{
    if k > 0 {
        lemma_paced_scheduler_keeps_waiting(s, polls, last, slack, k - 1);
        assert(polls.take(k).drop_last() =~= polls.take(k - 1));
        assert(polls.take(k).last() == polls[k - 1]);
        assert(!(action_at(s, polls, k - 1) is Fire));
        assert(reading_of(s.cache, polls[k - 1]) is Some);
    }
    assert(reading_of(s.cache, polls[k]) is Some);
}

/// A mission that starts with time left fires within a millisecond of its
/// deadline and the caller's slack: where the first poll answers `Wait`, the
/// caller polls as it is told with no more than `slack` nanoseconds beyond
/// each sleep, and no synchronisation falls due, the first `Fire` comes with
/// the present past the fire instant by less than a millisecond and the
/// slack. With a slack of nine milliseconds that is within ten.
pub proof fn lemma_paced_mission_fires_on_time(
    s: SchedulerView,
    polls: Seq<u64>,
    fired: int,
    slack: int,
)
    requires
        s.well_formed(),
        s.phase is Waiting,
        0 <= fired < polls.len(),
        slack >= 0,
        paced(s, polls, fired, slack),
        action_at(s, polls, 0) is Wait,
        action_at(s, polls, fired) is Fire,
        forall|j: int| 0 <= j < fired ==> !(#[trigger] action_at(s, polls, j) is Fire),
    ensures
        fired >= 1,
        0 <= overshoot_of(s.plan->0, action_at(s, polls, fired)) + NANOS_PER_MILLI,
        overshoot_of(s.plan->0, action_at(s, polls, fired)) < NANOS_PER_MILLI + slack,
        slack <= 9 * NANOS_PER_MILLI ==> overshoot_of(s.plan->0, action_at(s, polls, fired)) < 10
            * NANOS_PER_MILLI,
{
    let before = after_polls(s, polls.take(fired - 1));
    lemma_paced_scheduler_keeps_waiting(s, polls, fired, slack, fired - 1);
    lemma_paced_scheduler_keeps_waiting(s, polls, fired, slack, fired);
    assert(!(action_at(s, polls, fired - 1) is Fire));
    assert(action_at(s, polls, fired - 1) is Wait);
    assert(polls.take(fired).drop_last() =~= polls.take(fired - 1));
    assert(polls.take(fired).last() == polls[fired - 1]);
    assert(after_polls(s, polls.take(fired)) == poll_of(before, polls[fired - 1]).0);
    assert(reading_of(s.cache, polls[fired]) is Some);
    lemma_fire_follows_the_deadline_closely(before, polls[fired - 1], polls[fired]);
}

/// The sleep before the next poll never reaches past the fire instant: it is
/// no longer than what is left, so a caller that sleeps as told polls again
/// at or before the deadline, and the deadline is met within one poll.
pub proof fn lemma_poll_sleep_within_remaining(remaining_ms: int)
    requires
        remaining_ms >= 1,
    ensures
        1 <= poll_sleep_of(remaining_ms) <= remaining_ms,
        remaining_ms < 5_000 ==> poll_sleep_of(remaining_ms) == 1,
        remaining_ms < 30_000 ==> poll_sleep_of(remaining_ms) <= 10,
{
}

/// The phases follow one another in order: a poll or a finished
/// synchronisation leaves the phase alone or takes `Waiting` to `Firing`.
pub proof fn lemma_poll_phase_order(s: SchedulerView, estimate: TimeEstimate, now: u64)
    ensures
        poll_of(s, now).0.phase == s.phase || (s.phase is Waiting && poll_of(
            s,
            now,
        ).0.phase is Firing),
        resync_completed_of(s, estimate, now).0.phase == s.phase || (s.phase is Waiting
            && resync_completed_of(s, estimate, now).0.phase is Firing),
        poll_of(s, now).0.plan == s.plan,
        resync_completed_of(s, estimate, now).0.plan == s.plan,
{
}

} // verus!
