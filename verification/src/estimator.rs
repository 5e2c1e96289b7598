//! Reconciling the answers of several time sources into one estimate of UTC.

use vstd::prelude::*;
use crate::calendar::instant_from_unix_millis;
use crate::instant::{representable, UtcInstant, NANOS_PER_MILLI};
use crate::time_source::TimeSourceError;

verus! {

/// The number of samples at which a round stops asking.
pub const MAX_SAMPLES: usize = 5;

/// The spread, in milliseconds, above which the sources disagree too much
/// for any one of them to be believed.
pub const SPREAD_LIMIT_MS: i64 = 2_000;

/// How far an estimate can be trusted.
#[derive(Clone, Copy, Debug, PartialEq, Eq, Structural)]
pub enum Confidence {
    /// At least one source reported a time of its own; the instant is
    /// latency-compensated.
    High,
    /// No source reported a time of its own: the instant rests on the local
    /// system clock, and is no synchronisation.
    Low,
}

/// What a round of queries concluded.
#[derive(Clone, Copy, Debug, PartialEq, Eq, Structural)]
pub struct TimeEstimate {
    pub instant: UtcInstant,
    pub confidence: Confidence,
}

/// The instant at which a source produced its answer, taking the way there
/// and the way back to be equally long: the reported instant plus half the
/// round trip, all in nanoseconds.
pub open spec fn compensated_of(raw: int, latency_nanos: int) -> int {
    raw + latency_nanos / 2
}

/// Moves a reported instant forward by half the measured round trip. `None`
/// where the result leaves the representable range.
pub fn compensate(raw: UtcInstant, latency_nanos: u64) -> (r: Option<UtcInstant>)
    ensures
        r.is_some() == representable(compensated_of(raw@, latency_nanos as int)),
        r matches Some(t) ==> t@ == compensated_of(raw@, latency_nanos as int),
{
    raw.checked_add_nanos(latency_nanos / 2)
}

/// One successful answer of a time source.
#[derive(Clone, Debug, PartialEq, Eq)]
pub struct TimeSample {
    /// The reported instant, latency-compensated.
    pub observed_instant: UtcInstant,
    /// The round trip that was measured, in nanoseconds.
    pub measured_latency_nanos: u64,
    /// The name of the source.
    pub source_id: String,
    /// Set where the source reported no time and the local clock stood in for
    /// it: such a sample is no synchronisation.
    pub reduced_confidence: bool,
}

impl TimeSample {
    /// The sample for an answer that reported `raw` and took `latency_nanos`
    /// to arrive. `None` where the compensated instant cannot be represented.
    pub fn new(
        raw: UtcInstant,
        latency_nanos: u64,
        source_id: String,
        reduced_confidence: bool,
    ) -> (r: Option<TimeSample>)
        ensures
            r.is_some() == representable(compensated_of(raw@, latency_nanos as int)),
            r matches Some(sample) ==> {
                &&& sample.observed_instant@ == compensated_of(raw@, latency_nanos as int)
                &&& sample.measured_latency_nanos == latency_nanos
                &&& sample.source_id == source_id
                &&& sample.reduced_confidence == reduced_confidence
            },
    {
        match compensate(raw, latency_nanos) {
            Some(observed_instant) => Some(
                TimeSample {
                    observed_instant,
                    measured_latency_nanos: latency_nanos,
                    source_id,
                    reduced_confidence,
                },
            ),
            None => None,
        }
    }
}

/// No observed millisecond lies further than this from the epoch.
pub const MILLIS_BOUND: i128 = 8_400_000_000_000_000;

/// Whether every sample holds a representable instant, as every sample that
/// running code holds does.
pub open spec fn all_representable(samples: Seq<TimeSample>) -> bool {
    forall|i: int| 0 <= i < samples.len() ==> representable((#[trigger] samples[i]).observed_instant@)
}

/// Whether some sample holds a time that its source reported, and not the
/// local clock standing in for one.
pub open spec fn any_genuine(samples: Seq<TimeSample>) -> bool {
    exists|i: int| 0 <= i < samples.len() && !(#[trigger] samples[i]).reduced_confidence
}

/// How far the estimate of a round can be trusted: it is a synchronisation
/// only where some source reported a time of its own.
pub open spec fn confidence_of(samples: Seq<TimeSample>) -> Confidence {
    if any_genuine(samples) {
        Confidence::High
    } else {
        Confidence::Low
    }
}

/// The place of the sample with the lowest latency; of several with the
/// lowest, the first.
pub open spec fn best_index_of(samples: Seq<TimeSample>) -> int
    decreases samples.len(),
{
    if samples.len() <= 1 {
        0
    } else {
        let before = best_index_of(samples.drop_last());
        if samples.last().measured_latency_nanos < samples[before].measured_latency_nanos {
            samples.len() - 1
        } else {
            before
        }
    }
}

/// The earliest observed millisecond among the samples.
pub open spec fn earliest_millis_of(samples: Seq<TimeSample>) -> int
    decreases samples.len(),
{
    if samples.len() == 0 {
        0
    } else if samples.len() == 1 {
        samples[0].observed_instant.millis()
    } else {
        let before = earliest_millis_of(samples.drop_last());
        if samples.last().observed_instant.millis() < before {
            samples.last().observed_instant.millis()
        } else {
            before
        }
    }
}

/// The latest observed millisecond among the samples.
pub open spec fn latest_millis_of(samples: Seq<TimeSample>) -> int
    decreases samples.len(),
{
    if samples.len() == 0 {
        0
    } else if samples.len() == 1 {
        samples[0].observed_instant.millis()
    } else {
        let before = latest_millis_of(samples.drop_last());
        if samples.last().observed_instant.millis() > before {
            samples.last().observed_instant.millis()
        } else {
            before
        }
    }
}

/// How far the samples lie apart, in milliseconds: the largest difference
/// between the observed milliseconds of any two of them.
pub open spec fn spread_millis_of(samples: Seq<TimeSample>) -> int {
    latest_millis_of(samples) - earliest_millis_of(samples)
}

/// The observed milliseconds of all samples added up.
pub open spec fn sum_millis_of(samples: Seq<TimeSample>) -> int
    decreases samples.len(),
{
    if samples.len() == 0 {
        0
    } else {
        sum_millis_of(samples.drop_last()) + samples.last().observed_instant.millis()
    }
}

/// A quotient rounded towards zero.
pub open spec fn quotient_towards_zero(dividend: int, divisor: int) -> int {
    if dividend >= 0 {
        dividend / divisor
    } else {
        -((-dividend) / divisor)
    }
}

/// The arithmetic mean of the observed milliseconds, rounded towards zero.
pub open spec fn mean_millis_of(samples: Seq<TimeSample>) -> int {
    quotient_towards_zero(sum_millis_of(samples), samples.len() as int)
}

/// The instant that one or more samples are reconciled to, in nanoseconds:
/// the lowest-latency sample's, unless the samples lie more than two seconds
/// apart, and then the mean of them all.
pub open spec fn reconciled_of(samples: Seq<TimeSample>) -> int {
    if spread_millis_of(samples) > SPREAD_LIMIT_MS {
        mean_millis_of(samples) * NANOS_PER_MILLI
    } else {
        samples[best_index_of(samples)].observed_instant@
    }
}

/// The best index names a sample, one with the lowest latency of all, and no
/// sample before it has a latency as low.
pub proof fn lemma_best_index_is_first_lowest(samples: Seq<TimeSample>)
    requires
        samples.len() > 0,
    ensures
        0 <= best_index_of(samples) < samples.len(),
        forall|j: int|
            0 <= j < samples.len() ==> samples[best_index_of(samples)].measured_latency_nanos <= (
            #[trigger] samples[j]).measured_latency_nanos,
        forall|j: int|
            0 <= j < best_index_of(samples) ==> samples[best_index_of(
                samples,
            )].measured_latency_nanos < (#[trigger] samples[j]).measured_latency_nanos,
    decreases samples.len(),
{
    if samples.len() > 1 {
        let front = samples.drop_last();
        lemma_best_index_is_first_lowest(front);
        assert forall|j: int| 0 <= j < samples.len() implies samples[best_index_of(
            samples,
        )].measured_latency_nanos <= (#[trigger] samples[j]).measured_latency_nanos by {
            if j < samples.len() - 1 {
                assert(front[j] == samples[j]);
            }
        }
        assert forall|j: int| 0 <= j < best_index_of(samples) implies samples[best_index_of(
            samples,
        )].measured_latency_nanos < (#[trigger] samples[j]).measured_latency_nanos by {
            assert(front[j] == samples[j]);
        }
    }
}

/// The earliest and the latest millisecond bound every sample, and each is
/// the millisecond of some sample.
pub proof fn lemma_earliest_and_latest(samples: Seq<TimeSample>)
    requires
        samples.len() > 0,
    ensures
        forall|i: int|
            0 <= i < samples.len() ==> earliest_millis_of(samples) <= (
            #[trigger] samples[i]).observed_instant.millis() <= latest_millis_of(samples),
        exists|i: int|
            0 <= i < samples.len() && (#[trigger] samples[i]).observed_instant.millis()
                == earliest_millis_of(samples),
        exists|i: int|
            0 <= i < samples.len() && (#[trigger] samples[i]).observed_instant.millis()
                == latest_millis_of(samples),
    decreases samples.len(),
{
    if samples.len() == 1 {
        assert(samples[0].observed_instant.millis() == earliest_millis_of(samples));
        assert(samples[0].observed_instant.millis() == latest_millis_of(samples));
    } else {
        let front = samples.drop_last();
        let last = samples.len() - 1;
        lemma_earliest_and_latest(front);
        assert forall|i: int| 0 <= i < samples.len() implies earliest_millis_of(samples) <= (
        #[trigger] samples[i]).observed_instant.millis() <= latest_millis_of(samples) by {
            if i < last {
                assert(front[i] == samples[i]);
            }
        }
        let lo = choose|i: int|
            0 <= i < front.len() && (#[trigger] front[i]).observed_instant.millis()
                == earliest_millis_of(front);
        let hi = choose|i: int|
            0 <= i < front.len() && (#[trigger] front[i]).observed_instant.millis()
                == latest_millis_of(front);
        assert(front[lo] == samples[lo]);
        assert(front[hi] == samples[hi]);
        if samples[last].observed_instant.millis() < earliest_millis_of(front) {
            assert(samples[last].observed_instant.millis() == earliest_millis_of(samples));
        } else {
            assert(samples[lo].observed_instant.millis() == earliest_millis_of(samples));
        }
        if samples[last].observed_instant.millis() > latest_millis_of(front) {
            assert(samples[last].observed_instant.millis() == latest_millis_of(samples));
        } else {
            assert(samples[hi].observed_instant.millis() == latest_millis_of(samples));
        }
    }
}

/// The spread is the largest difference between two samples: no two samples
/// lie further apart, and some two lie exactly that far apart.
pub proof fn lemma_spread_is_largest_pairwise_difference(samples: Seq<TimeSample>)
    requires
        samples.len() > 0,
    ensures
        forall|i: int, j: int|
            0 <= i < samples.len() && 0 <= j < samples.len() ==> (
            #[trigger] samples[i]).observed_instant.millis() - (
            #[trigger] samples[j]).observed_instant.millis() <= spread_millis_of(samples),
        exists|i: int, j: int|
            0 <= i < samples.len() && 0 <= j < samples.len() && (
            #[trigger] samples[i]).observed_instant.millis() - (
            #[trigger] samples[j]).observed_instant.millis() == spread_millis_of(samples),
{
    lemma_earliest_and_latest(samples);
    let lo = choose|i: int|
        0 <= i < samples.len() && (#[trigger] samples[i]).observed_instant.millis()
            == earliest_millis_of(samples);
    let hi = choose|i: int|
        0 <= i < samples.len() && (#[trigger] samples[i]).observed_instant.millis()
            == latest_millis_of(samples);
    assert(samples[hi].observed_instant.millis() - samples[lo].observed_instant.millis()
        == spread_millis_of(samples));
}

/// The sum of the observed milliseconds lies between the earliest and the
/// latest, each taken as often as there are samples.
pub proof fn lemma_sum_between_extremes(samples: Seq<TimeSample>)
    requires
        samples.len() > 0,
    ensures
        samples.len() * earliest_millis_of(samples) <= sum_millis_of(samples) <= samples.len()
            * latest_millis_of(samples),
    decreases samples.len(),
{
    let n = samples.len() as int;
    let x = samples.last().observed_instant.millis();
    if n == 1 {
        assert(sum_millis_of(samples.drop_last()) == 0);
        assert(samples[0] == samples.last());
    } else {
        let front = samples.drop_last();
        lemma_sum_between_extremes(front);
        let lo0 = earliest_millis_of(front);
        let hi0 = latest_millis_of(front);
        let lo = earliest_millis_of(samples);
        let hi = latest_millis_of(samples);
        assert(lo <= lo0 && lo <= x);
        assert(hi >= hi0 && hi >= x);
        assert((n - 1) * lo <= (n - 1) * lo0) by (nonlinear_arith)
            requires
                n >= 1,
                lo <= lo0,
        ;
        assert((n - 1) * hi >= (n - 1) * hi0) by (nonlinear_arith)
            requires
                n >= 1,
                hi >= hi0,
        ;
        assert(n * lo == (n - 1) * lo + lo) by (nonlinear_arith);
        assert(n * hi == (n - 1) * hi + hi) by (nonlinear_arith);
    }
}

/// The mean lies between the earliest and the latest observed millisecond.
pub proof fn lemma_mean_between_extremes(samples: Seq<TimeSample>)
    requires
        samples.len() > 0,
    ensures
        earliest_millis_of(samples) <= mean_millis_of(samples) <= latest_millis_of(samples),
{
    lemma_sum_between_extremes(samples);
    let n = samples.len() as int;
    let sum = sum_millis_of(samples);
    let lo = earliest_millis_of(samples);
    let hi = latest_millis_of(samples);
    let mean = mean_millis_of(samples);
    if sum >= 0 {
        assert(lo <= sum / n <= hi) by (nonlinear_arith)
            requires
                n > 0,
                n * lo <= sum <= n * hi,
                sum >= 0,
        ;
    } else {
        assert(lo <= -((-sum) / n) <= hi) by (nonlinear_arith)
            requires
                n > 0,
                n * lo <= sum <= n * hi,
                sum < 0,
        ;
    }
}

/// Compensation adds exactly half the latency, rounded down to the
/// nanosecond, and a longer round trip never gives an earlier instant.
pub proof fn lemma_compensation_halves_latency(raw: int, latency_nanos: int, longer_nanos: int)
    requires
        0 <= latency_nanos <= longer_nanos,
    ensures
        compensated_of(raw, latency_nanos) - raw == latency_nanos / 2,
        2 * (compensated_of(raw, latency_nanos) - raw) <= latency_nanos < 2 * (compensated_of(
            raw,
            latency_nanos,
        ) - raw) + 2,
        compensated_of(raw, latency_nanos) <= compensated_of(raw, longer_nanos),
        raw <= compensated_of(raw, latency_nanos),
{
}

/// Reconciles the samples of a round into one estimate. With no sample the
/// estimate is the system clock. Otherwise the sample with the lowest latency
/// is believed, unless the samples lie more than two seconds apart: then no
/// single one is, and the estimate is the mean of the observed milliseconds
/// of all of them. The estimate is of high confidence only where some sample
/// holds a time that its source reported: a round in which the local clock
/// stood in for every source is no synchronisation.
pub fn reconcile(samples: &Vec<TimeSample>, system_now: UtcInstant) -> (estimate: TimeEstimate)
    ensures
        estimate.confidence == confidence_of(samples@),
        samples@.len() == 0 ==> estimate.instant == system_now,
        samples@.len() > 0 ==> estimate.instant@ == reconciled_of(samples@),
{
    let n = samples.len();
    if n == 0 {
        return TimeEstimate { instant: system_now, confidence: Confidence::Low };
    }
    let first = samples[0].observed_instant;
    proof {
        use_type_invariant(&first);
        let one = samples@.take(1);
        assert(one.last() == samples@[0]);
        assert(sum_millis_of(one.drop_last()) == 0);
    }
    let mut genuine: bool = !samples[0].reduced_confidence;
    let mut best: usize = 0;
    let mut earliest: i64 = first.epoch_millis();
    let mut latest: i64 = earliest;
    let mut sum: i128 = earliest as i128;
    let mut i: usize = 1;
    while i < n
        invariant
            1 <= i <= n,
            n == samples@.len(),
            0 <= best < i,
            genuine == any_genuine(samples@.take(i as int)),
            best == best_index_of(samples@.take(i as int)),
            earliest == earliest_millis_of(samples@.take(i as int)),
            latest == latest_millis_of(samples@.take(i as int)),
            sum == sum_millis_of(samples@.take(i as int)),
            all_representable(samples@.take(i as int)),
            -MILLIS_BOUND <= earliest <= latest <= MILLIS_BOUND,
            -(i * MILLIS_BOUND) <= sum <= i * MILLIS_BOUND,
        decreases n - i,
    {
        let observed = samples[i].observed_instant;
        let millis = observed.epoch_millis();
        proof {
            use_type_invariant(&observed);
            assert(samples@.take(i + 1).drop_last() =~= samples@.take(i as int));
            assert(samples@.take(i + 1).last() == samples@[i as int]);
            assert(samples@.take(i as int)[best as int] == samples@[best as int]);
        }
        proof {
            let before = samples@.take(i as int);
            let after = samples@.take(i + 1);
            if any_genuine(before) {
                let k = choose|k: int| 0 <= k < before.len() && !(#[trigger] before[k]).reduced_confidence;
                assert(!after[k].reduced_confidence);
            }
            if any_genuine(after) && samples@[i as int].reduced_confidence {
                let k = choose|k: int| 0 <= k < after.len() && !(#[trigger] after[k]).reduced_confidence;
                assert(!before[k].reduced_confidence);
            }
            if !samples@[i as int].reduced_confidence {
                assert(!after[i as int].reduced_confidence);
            }
        }
        if !samples[i].reduced_confidence {
            genuine = true;
        }
        if samples[i].measured_latency_nanos < samples[best].measured_latency_nanos {
            best = i;
        }
        if millis < earliest {
            earliest = millis;
        }
        if millis > latest {
            latest = millis;
        }
        sum = sum + millis as i128;
        i += 1;
    }
    proof {
        assert(samples@.take(n as int) =~= samples@);
    }
    let confidence = if genuine {
        Confidence::High
    } else {
        Confidence::Low
    };
    if latest - earliest > SPREAD_LIMIT_MS {
        let count: i128 = n as i128;
        let mean: i128 = if sum >= 0 {
            sum / count
        } else {
            -((-sum) / count)
        };
        proof {
            lemma_mean_between_extremes(samples@);
            lemma_reconciled_is_representable(samples@);
        }
        match instant_from_unix_millis(mean as i64) {
            Some(instant) => TimeEstimate { instant, confidence },
            // Never taken: the mean lies between two representable samples.
            None => TimeEstimate { instant: system_now, confidence },
        }
    } else {
        TimeEstimate { instant: samples[best].observed_instant, confidence }
    }
}

/// The place of the sample with the lowest latency, the one that is believed
/// where the samples agree; of several with the lowest latency, the first.
/// `None` where there is no sample.
pub fn best_sample_index(samples: &Vec<TimeSample>) -> (r: Option<usize>)
    ensures
        r.is_some() == (samples@.len() > 0),
        r matches Some(i) ==> i == best_index_of(samples@) && i < samples@.len(),
{
    let n = samples.len();
    if n == 0 {
        return None;
    }
    let mut best: usize = 0;
    let mut i: usize = 1;
    while i < n
        invariant
            1 <= i <= n,
            n == samples@.len(),
            0 <= best < i,
            best == best_index_of(samples@.take(i as int)),
        decreases n - i,
    {
        proof {
            assert(samples@.take(i + 1).drop_last() =~= samples@.take(i as int));
            assert(samples@.take(i + 1).last() == samples@[i as int]);
            assert(samples@.take(i as int)[best as int] == samples@[best as int]);
        }
        if samples[i].measured_latency_nanos < samples[best].measured_latency_nanos {
            best = i;
        }
        i += 1;
    }
    proof {
        assert(samples@.take(n as int) =~= samples@);
    }
    Some(best)
}

/// How far the samples lie apart, in milliseconds; nothing where there is no
/// sample.
pub fn spread_millis(samples: &Vec<TimeSample>) -> (spread: i64)
    ensures
        spread == spread_millis_of(samples@),
        spread >= 0,
{
    let n = samples.len();
    if n == 0 {
        return 0;
    }
    let first = samples[0].observed_instant;
    proof {
        use_type_invariant(&first);
    }
    let mut earliest: i64 = first.epoch_millis();
    let mut latest: i64 = earliest;
    let mut i: usize = 1;
    while i < n
        invariant
            1 <= i <= n,
            n == samples@.len(),
            earliest == earliest_millis_of(samples@.take(i as int)),
            latest == latest_millis_of(samples@.take(i as int)),
            -MILLIS_BOUND <= earliest <= latest <= MILLIS_BOUND,
        decreases n - i,
    {
        let observed = samples[i].observed_instant;
        let millis = observed.epoch_millis();
        proof {
            use_type_invariant(&observed);
            assert(samples@.take(i + 1).drop_last() =~= samples@.take(i as int));
            assert(samples@.take(i + 1).last() == samples@[i as int]);
        }
        if millis < earliest {
            earliest = millis;
        }
        if millis > latest {
            latest = millis;
        }
        i += 1;
    }
    proof {
        assert(samples@.take(n as int) =~= samples@);
    }
    latest - earliest
}

/// A round of queries as plain values.
pub struct RoundView {
    /// How many sources the round may ask.
    pub source_count: usize,
    /// The place of the source to ask next.
    pub next_source: usize,
    /// The samples gathered so far, in the order of their sources.
    pub samples: Seq<TimeSample>,
}

impl RoundView {
    /// No more answers than sources asked, and no more samples than the
    /// round stops at.
    pub open spec fn well_formed(self) -> bool {
        &&& self.next_source <= self.source_count
        &&& self.samples.len() <= self.next_source
        &&& self.samples.len() <= MAX_SAMPLES
    }

    /// The source to ask next: the sources are asked one after another, until
    /// none is left or five have answered.
    pub open spec fn next_query(self) -> Option<usize> {
        if self.next_source < self.source_count && self.samples.len() < MAX_SAMPLES {
            Some(self.next_source)
        } else {
            None
        }
    }

    /// The round after the answer of the source that was asked.
    pub open spec fn after(self, outcome: Result<TimeSample, TimeSourceError>) -> RoundView {
        match self.next_query() {
            Some(asked) => RoundView {
                next_source: (asked + 1) as usize,
                samples: match outcome {
                    Ok(sample) => self.samples.push(sample),
                    Err(_) => self.samples,
                },
                ..self
            },
            None => self,
        }
    }
}

/// One round of queries: its caller asks the source that the round names,
/// and reports what came of it.
#[derive(Clone, Debug)]
pub struct SyncRound {
    source_count: usize,
    next_source: usize,
    samples: Vec<TimeSample>,
}

impl View for SyncRound {
    type V = RoundView;

    closed spec fn view(&self) -> RoundView {
        RoundView {
            source_count: self.source_count,
            next_source: self.next_source,
            samples: self.samples@,
        }
    }
}

impl SyncRound {
    /// A round over `source_count` sources, none of them asked yet.
    pub fn new(source_count: usize) -> (round: SyncRound)
        ensures
            round@ == (RoundView { source_count, next_source: 0, samples: Seq::empty() }),
            round@.well_formed(),
    {
        SyncRound { source_count, next_source: 0, samples: Vec::new() }
    }

    /// The place of the source to ask next, or `None` once the round is over.
    pub fn next_query(&self) -> (next: Option<usize>)
        ensures
            next == self@.next_query(),
    {
        if self.next_source < self.source_count && self.samples.len() < MAX_SAMPLES {
            Some(self.next_source)
        } else {
            None
        }
    }

    /// Takes in what came of the query that was due: a sample is kept, an
    /// error skips the source. With no query due nothing changes.
    pub fn record(&mut self, outcome: Result<TimeSample, TimeSourceError>) -> (accepted: bool)
        requires
            old(self)@.well_formed(),
        ensures
            final(self)@.well_formed(),
            final(self)@ == old(self)@.after(outcome),
            accepted == old(self)@.next_query().is_some(),
    {
        if self.next_source < self.source_count && self.samples.len() < MAX_SAMPLES {
            self.next_source = self.next_source + 1;
            match outcome {
                Ok(sample) => {
                    self.samples.push(sample);
                },
                Err(_) => {},
            }
            true
        } else {
            false
        }
    }

    /// The samples gathered so far.
    pub fn samples(&self) -> (samples: &Vec<TimeSample>)
        ensures
            samples@ == self@.samples,
    {
        &self.samples
    }

    /// The estimate that the gathered samples give.
    pub fn finish(&self, system_now: UtcInstant) -> (estimate: TimeEstimate)
        ensures
            estimate.confidence == confidence_of(self@.samples),
            self@.samples.len() == 0 ==> estimate.instant == system_now,
            self@.samples.len() > 0 ==> estimate.instant@ == reconciled_of(self@.samples),
    {
        reconcile(&self.samples, system_now)
    }
}

/// A round asks its sources in order and stops at five samples: each answer
/// moves the round to the next source, a round that is well formed stays so,
/// and once five samples are in no source is asked.
pub proof fn lemma_round_progress(round: RoundView, outcome: Result<TimeSample, TimeSourceError>)
    requires
        round.well_formed(),
    ensures
        round.after(outcome).well_formed(),
        round.next_query() matches Some(asked) ==> round.after(outcome).next_source == asked + 1,
        round.after(outcome).next_query() matches Some(next) ==> round.next_query() matches Some(
            asked,
        ) && next == asked + 1,
        round.samples.len() >= MAX_SAMPLES ==> round.next_query() is None,
        round.after(outcome).source_count == round.source_count,
{
}

/// A round at its start.
pub open spec fn round_at_start(source_count: usize) -> RoundView {
    RoundView { source_count, next_source: 0, samples: Seq::empty() }
}

/// The round after the answers `outcomes`, taken in one after another.
pub open spec fn round_after_all(
    round: RoundView,
    outcomes: Seq<Result<TimeSample, TimeSourceError>>,
) -> RoundView
    decreases outcomes.len(),
{
    if outcomes.len() == 0 {
        round
    } else {
        round_after_all(round, outcomes.drop_last()).after(outcomes.last())
    }
}

/// The samples among `outcomes`, in their order.
pub open spec fn successes_of(outcomes: Seq<Result<TimeSample, TimeSourceError>>) -> Seq<
    TimeSample,
>
    decreases outcomes.len(),
{
    if outcomes.len() == 0 {
        Seq::empty()
    } else {
        match outcomes.last() {
            Ok(sample) => successes_of(outcomes.drop_last()).push(sample),
            Err(_) => successes_of(outcomes.drop_last()),
        }
    }
}

/// The first `limit` of `samples`, or all of them where there are fewer.
pub open spec fn first_up_to(samples: Seq<TimeSample>, limit: int) -> Seq<TimeSample> {
    if samples.len() <= limit {
        samples
    } else {
        samples.take(limit)
    }
}

/// A round told the answers of its sources in order keeps the first five
/// samples among them and nothing else; as long as fewer than five have come
/// in, every answer has been taken in and the next source is due.
pub proof fn lemma_round_keeps_the_first_successes(
    source_count: usize,
    outcomes: Seq<Result<TimeSample, TimeSourceError>>,
)
    requires
        outcomes.len() <= source_count,
    ensures
        round_after_all(round_at_start(source_count), outcomes).well_formed(),
        round_after_all(round_at_start(source_count), outcomes).source_count == source_count,
        round_after_all(round_at_start(source_count), outcomes).samples == first_up_to(
            successes_of(outcomes),
            MAX_SAMPLES as int,
        ),
        successes_of(outcomes).len() < MAX_SAMPLES ==> round_after_all(
            round_at_start(source_count),
            outcomes,
        ).next_source == outcomes.len(),
    decreases outcomes.len(),
{
    if outcomes.len() > 0 {
        let front = outcomes.drop_last();
        lemma_round_keeps_the_first_successes(source_count, front);
        let before = round_after_all(round_at_start(source_count), front);
        let earlier = successes_of(front);
        if earlier.len() >= MAX_SAMPLES {
            assert(before.next_query() is None);
            match outcomes.last() {
                Ok(sample) => {
                    assert(earlier.push(sample).take(MAX_SAMPLES as int) =~= earlier.take(
                        MAX_SAMPLES as int,
                    ));
                },
                Err(_) => {},
            }
        } else {
            assert(before.next_query() == Some(before.next_source));
        }
    }
}

/// Where some two samples lie more than two seconds apart, the estimate is
/// the mean of the observed milliseconds of all samples, whatever the latency
/// of any one of them.
pub proof fn lemma_wide_spread_gives_mean(samples: Seq<TimeSample>, one: int, other: int)
    requires
        0 <= one < samples.len(),
        0 <= other < samples.len(),
        samples[one].observed_instant.millis() - samples[other].observed_instant.millis()
            > SPREAD_LIMIT_MS,
    ensures
        reconciled_of(samples) == quotient_towards_zero(
            sum_millis_of(samples),
            samples.len() as int,
        ) * NANOS_PER_MILLI,
{
    lemma_spread_is_largest_pairwise_difference(samples);
}

/// Where no two samples lie more than two seconds apart, the estimate is
/// exactly the compensated instant of the sample with the lowest latency.
pub proof fn lemma_narrow_spread_gives_best(samples: Seq<TimeSample>)
    requires
        samples.len() > 0,
        forall|i: int, j: int|
            0 <= i < samples.len() && 0 <= j < samples.len() ==> (
            #[trigger] samples[i]).observed_instant.millis() - (
            #[trigger] samples[j]).observed_instant.millis() <= SPREAD_LIMIT_MS,
    ensures
        0 <= best_index_of(samples) < samples.len(),
        reconciled_of(samples) == samples[best_index_of(samples)].observed_instant@,
        forall|j: int|
            0 <= j < samples.len() ==> samples[best_index_of(samples)].measured_latency_nanos <= (
            #[trigger] samples[j]).measured_latency_nanos,
{
    lemma_best_index_is_first_lowest(samples);
    lemma_spread_is_largest_pairwise_difference(samples);
}

/// The estimate of one or more representable samples is representable, so
/// reconciling never fails: it lies between the earliest and the latest
/// sample, to the millisecond.
pub proof fn lemma_reconciled_is_representable(samples: Seq<TimeSample>)
    requires
        samples.len() > 0,
        all_representable(samples),
    ensures
        representable(reconciled_of(samples)),
        earliest_millis_of(samples) <= reconciled_of(samples) / (NANOS_PER_MILLI as int)
            <= latest_millis_of(samples),
{
    lemma_best_index_is_first_lowest(samples);
    lemma_earliest_and_latest(samples);
    lemma_mean_between_extremes(samples);
}

} // verus!
