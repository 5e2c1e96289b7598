//! The burst: a fixed number of attempts launched in order with a small
//! stagger, each ending in exactly one outcome, all of them collected.

use vstd::prelude::*;
use vstd::set_lib::{lemma_int_range, lemma_len_subset, set_int_range};
use crate::instant::{UtcInstant, NANOS_PER_MILLI};

verus! {

/// The pause between two launches, in milliseconds.
pub const LAUNCH_STAGGER_MS: u64 = 2;

/// The longest an attempt may take to connect, in seconds.
pub const ATTEMPT_CONNECT_TIMEOUT_SECS: u64 = 5;

/// The longest an attempt may take in all, in seconds. An attempt that runs
/// into it ends as a network error; nothing is tried again.
pub const ATTEMPT_TIMEOUT_SECS: u64 = 10;

/// How one attempt ended.
#[derive(Clone, Debug, PartialEq, Eq)]
pub enum AttemptOutcome {
    /// The endpoint answered with a status in the 200s.
    Success,
    /// The endpoint answered with another status.
    HttpFailure(u16),
    /// The request did not get an answer: refused, broken off or timed out.
    NetworkError(String),
}

/// The outcomes without what they carry.
#[derive(Clone, Copy, Debug, PartialEq, Eq, Structural)]
pub enum OutcomeKind {
    Success,
    HttpFailure,
    NetworkError,
}

impl AttemptOutcome {
    /// Which of the three outcomes this is.
    pub open spec fn kind(self) -> OutcomeKind {
        match self {
            AttemptOutcome::Success => OutcomeKind::Success,
            AttemptOutcome::HttpFailure(_) => OutcomeKind::HttpFailure,
            AttemptOutcome::NetworkError(_) => OutcomeKind::NetworkError,
        }
    }

    /// Which of the three outcomes this is.
    pub fn outcome_kind(&self) -> (kind: OutcomeKind)
        ensures
            kind == self.kind(),
    {
        match self {
            AttemptOutcome::Success => OutcomeKind::Success,
            AttemptOutcome::HttpFailure(_) => OutcomeKind::HttpFailure,
            AttemptOutcome::NetworkError(_) => OutcomeKind::NetworkError,
        }
    }
}

/// The outcome that an answer stands for: a status, or the message of the
/// error that kept the status from arriving.
pub open spec fn outcome_of(response: Result<u16, String>) -> AttemptOutcome {
    match response {
        Ok(status) => if 200 <= status < 300 {
            AttemptOutcome::Success
        } else {
            AttemptOutcome::HttpFailure(status)
        },
        Err(message) => AttemptOutcome::NetworkError(message),
    }
}

/// Sorts an answer into exactly one outcome.
pub fn classify_response(response: Result<u16, String>) -> (outcome: AttemptOutcome)
    ensures
        outcome == outcome_of(response),
{
    match response {
        Ok(status) => if 200 <= status && status < 300 {
            AttemptOutcome::Success
        } else {
            AttemptOutcome::HttpFailure(status)
        },
        Err(message) => AttemptOutcome::NetworkError(message),
    }
}

/// Milliseconds from the first launch to the launch of attempt
/// `sequence_number`, the first being attempt 1.
pub open spec fn launch_offset_of(sequence_number: int) -> int {
    (sequence_number - 1) * LAUNCH_STAGGER_MS
}

/// What is known of one attempt once it is over.
#[derive(Clone, Debug, PartialEq, Eq)]
pub struct AttemptRecord {
    /// The place of the attempt in launch order, from 1.
    pub sequence_number: u8,
    /// The instant the burst was planned for.
    pub planned_instant: UtcInstant,
    /// The instant read just before the request went out.
    pub actual_send_instant: UtcInstant,
    pub outcome: AttemptOutcome,
}

/// A launch that the dispatcher hands out.
#[derive(Clone, Copy, Debug, PartialEq, Eq, Structural)]
pub struct Launch {
    /// The place of the attempt in launch order, from 1.
    pub sequence_number: u8,
    /// Milliseconds from the first launch to this one.
    pub offset_ms: u64,
    /// The pause to make after this launch, in milliseconds.
    pub pause_after_ms: u64,
}

/// How many of `records` ended in an outcome of `kind`.
pub open spec fn count_kind(records: Seq<AttemptRecord>, kind: OutcomeKind) -> nat
    decreases records.len(),
{
    if records.len() == 0 {
        0
    } else {
        count_kind(records.drop_last(), kind) + if records.last().outcome.kind() == kind {
            1nat
        } else {
            0nat
        }
    }
}

/// Whether `records` holds a record of attempt `sequence_number`.
pub open spec fn recorded(records: Seq<AttemptRecord>, sequence_number: int) -> bool {
    exists|i: int| 0 <= i < records.len() && #[trigger] records[i].sequence_number == sequence_number
}

/// The dispatcher as plain values.
pub struct BurstView {
    pub size: u8,
    pub planned_instant: UtcInstant,
    pub launched: u8,
    pub records: Seq<AttemptRecord>,
}

impl BurstView {
    /// No more launches than the burst holds; every record is of a launched
    /// attempt and carries the planned instant; no attempt has two records.
    pub open spec fn well_formed(self) -> bool {
        &&& self.launched <= self.size
        &&& forall|i: int|
            0 <= i < self.records.len() ==> 1 <= (#[trigger] self.records[i]).sequence_number
                <= self.launched
        &&& forall|i: int|
            0 <= i < self.records.len() ==> (#[trigger] self.records[i]).planned_instant
                == self.planned_instant
        &&& forall|i: int, j: int|
            0 <= i < j < self.records.len() ==> (#[trigger] self.records[i]).sequence_number != (
            #[trigger] self.records[j]).sequence_number
    }

    /// Whether a record of attempt `sequence_number` can be taken in.
    pub open spec fn admits(self, sequence_number: u8) -> bool {
        1 <= sequence_number <= self.launched && !recorded(self.records, sequence_number as int)
    }

    /// Every attempt was launched and every launch has its record.
    pub open spec fn complete(self) -> bool {
        self.launched == self.size && self.records.len() == self.size
    }
}

/// The tally of a burst.
#[derive(Clone, Copy, Debug, PartialEq, Eq, Structural)]
pub struct BurstSummary {
    /// Records collected.
    pub attempts: usize,
    pub successes: usize,
    pub http_failures: usize,
    pub network_errors: usize,
}

/// Launches a burst and collects its records.
#[derive(Clone, Debug)]
pub struct BurstDispatcher {
    size: u8,
    planned_instant: UtcInstant,
    launched: u8,
    records: Vec<AttemptRecord>,
}

impl View for BurstDispatcher {
    type V = BurstView;

    closed spec fn view(&self) -> BurstView {
        BurstView {
            size: self.size,
            planned_instant: self.planned_instant,
            launched: self.launched,
            records: self.records@,
        }
    }
}

impl BurstDispatcher {
    /// A dispatcher for `size` attempts planned for `planned_instant`, with
    /// nothing launched yet.
    pub fn new(size: u8, planned_instant: UtcInstant) -> (dispatcher: BurstDispatcher)
        ensures
            dispatcher@ == (BurstView {
                size,
                planned_instant,
                launched: 0,
                records: Seq::empty(),
            }),
            dispatcher@.well_formed(),
    {
        BurstDispatcher { size, planned_instant, launched: 0, records: Vec::new() }
    }

    /// How many attempts the burst holds.
    pub fn size(&self) -> (size: u8)
        ensures
            size == self@.size,
    {
        self.size
    }

    /// How many attempts have been launched.
    pub fn launched(&self) -> (launched: u8)
        ensures
            launched == self@.launched,
    {
        self.launched
    }

    /// The instant the burst was planned for.
    pub fn planned_instant(&self) -> (t: UtcInstant)
        ensures
            t == self@.planned_instant,
    {
        self.planned_instant
    }

    /// The records collected so far, in the order they came in.
    pub fn records(&self) -> (records: &Vec<AttemptRecord>)
        ensures
            records@ == self@.records,
    {
        &self.records
    }

    /// Hands out the next launch: attempts are numbered from 1 in launch
    /// order, each two milliseconds after the one before. `None` once the
    /// whole burst is launched.
    pub fn next_launch(&mut self) -> (launch: Option<Launch>)
        requires
            old(self)@.well_formed(),
        ensures
            final(self)@.well_formed(),
            old(self)@.launched < old(self)@.size ==> launch == Some(
                Launch {
                    sequence_number: (old(self)@.launched + 1) as u8,
                    offset_ms: launch_offset_of(old(self)@.launched + 1) as u64,
                    pause_after_ms: LAUNCH_STAGGER_MS,
                },
            ) && final(self)@ == (BurstView {
                launched: (old(self)@.launched + 1) as u8,
                ..old(self)@
            }),
            old(self)@.launched >= old(self)@.size ==> launch is None && final(self)@ == old(
                self,
            )@,
    {
        if self.launched < self.size {
            let sequence_number: u8 = self.launched + 1;
            self.launched = sequence_number;
            Some(
                Launch {
                    sequence_number,
                    offset_ms: (sequence_number as u64 - 1) * LAUNCH_STAGGER_MS,
                    pause_after_ms: LAUNCH_STAGGER_MS,
                },
            )
        } else {
            None
        }
    }

    /// Whether a record of attempt `sequence_number` is held.
    pub fn has_record(&self, sequence_number: u8) -> (found: bool)
        ensures
            found == recorded(self@.records, sequence_number as int),
    {
        let mut i: usize = 0;
        while i < self.records.len()
            invariant
                i <= self.records.len(),
                forall|k: int| 0 <= k < i ==> self.records@[k].sequence_number != sequence_number,
            decreases self.records.len() - i,
        {
            if self.records[i].sequence_number == sequence_number {
                return true;
            }
            i += 1;
        }
        false
    }

    /// Takes in what came of attempt `sequence_number`. The record is kept
    /// where the attempt was launched and has no record yet; records may come
    /// in any order. Anything else is turned away and changes nothing.
    pub fn record(
        &mut self,
        sequence_number: u8,
        actual_send_instant: UtcInstant,
        response: Result<u16, String>,
    ) -> (accepted: bool)
        requires
            old(self)@.well_formed(),
        ensures
            final(self)@.well_formed(),
            accepted == old(self)@.admits(sequence_number),
            accepted ==> final(self)@ == (BurstView {
                records: old(self)@.records.push(
                    AttemptRecord {
                        sequence_number,
                        planned_instant: old(self)@.planned_instant,
                        actual_send_instant,
                        outcome: outcome_of(response),
                    },
                ),
                ..old(self)@
            }),
            !accepted ==> final(self)@ == old(self)@,
    {
        if sequence_number < 1 || sequence_number > self.launched || self.has_record(
            sequence_number,
        ) {
            return false;
        }
        let record = AttemptRecord {
            sequence_number,
            planned_instant: self.planned_instant,
            actual_send_instant,
            outcome: classify_response(response),
        };
        self.records.push(record);
        true
    }

    /// Whether the burst is over: every attempt launched, every record in.
    pub fn is_complete(&self) -> (complete: bool)
        ensures
            complete == self@.complete(),
    {
        self.launched == self.size && self.records.len() == self.size as usize
    }

    /// The record of attempt `sequence_number`, where it has come in.
    pub fn find(&self, sequence_number: u8) -> (found: Option<&AttemptRecord>)
        ensures
            found.is_some() == recorded(self@.records, sequence_number as int),
            found matches Some(record) ==> record.sequence_number == sequence_number
                && self@.records.contains(*record),
    {
        let mut i: usize = 0;
        while i < self.records.len()
            invariant
                i <= self.records.len(),
                forall|k: int| 0 <= k < i ==> self.records@[k].sequence_number != sequence_number,
            decreases self.records.len() - i,
        {
            if self.records[i].sequence_number == sequence_number {
                return Some(&self.records[i]);
            }
            i += 1;
        }
        None
    }

    /// Whether the records show that the pause after each launch was kept:
    /// each attempt on record was sent no sooner than two milliseconds after
    /// the attempt launched before it, where that one is on record too.
    pub fn kept_pauses(&self) -> (kept: bool)
        ensures
            kept == sent_with_pauses(self@.records),
    {
        let n = self.records.len();
        let mut i: usize = 0;
        while i < n
            invariant
                i <= n,
                n == self.records@.len(),
                forall|a: int, b: int|
                    0 <= a < i && 0 <= b < n && (#[trigger] self.records@[b]).sequence_number == (
                    #[trigger] self.records@[a]).sequence_number + 1
                        ==> self.records@[b].actual_send_instant@
                        - self.records@[a].actual_send_instant@ >= LAUNCH_STAGGER_MS
                        * NANOS_PER_MILLI,
            decreases n - i,
        {
            let mut j: usize = 0;
            while j < n
                invariant
                    i < n,
                    j <= n,
                    n == self.records@.len(),
                    forall|b: int|
                        0 <= b < j && (#[trigger] self.records@[b]).sequence_number
                            == self.records@[i as int].sequence_number + 1
                            ==> self.records@[b].actual_send_instant@
                            - self.records@[i as int].actual_send_instant@ >= LAUNCH_STAGGER_MS
                            * NANOS_PER_MILLI,
                decreases n - j,
            {
                let earlier = &self.records[i];
                let later = &self.records[j];
                if earlier.sequence_number < u8::MAX && later.sequence_number
                    == earlier.sequence_number + 1 {
                    let gap = earlier.actual_send_instant.nanos_until(&later.actual_send_instant);
                    if gap < LAUNCH_STAGGER_MS as i128 * NANOS_PER_MILLI {
                        return false;
                    }
                }
                j += 1;
            }
            i += 1;
        }
        true
    }

    /// Counts the records by outcome.
    pub fn summary(&self) -> (summary: BurstSummary)
        ensures
            summary.attempts == self@.records.len(),
            summary.successes == count_kind(self@.records, OutcomeKind::Success),
            summary.http_failures == count_kind(self@.records, OutcomeKind::HttpFailure),
            summary.network_errors == count_kind(self@.records, OutcomeKind::NetworkError),
    {
        let mut successes: usize = 0;
        let mut http_failures: usize = 0;
        let mut network_errors: usize = 0;
        let mut i: usize = 0;
        while i < self.records.len()
            invariant
                i <= self.records.len(),
                successes == count_kind(self.records@.take(i as int), OutcomeKind::Success),
                http_failures == count_kind(self.records@.take(i as int), OutcomeKind::HttpFailure),
                network_errors == count_kind(
                    self.records@.take(i as int),
                    OutcomeKind::NetworkError,
                ),
                successes + http_failures + network_errors == i,
            decreases self.records.len() - i,
        {
            proof {
                assert(self.records@.take(i + 1).drop_last() =~= self.records@.take(i as int));
            }
            match self.records[i].outcome.outcome_kind() {
                OutcomeKind::Success => {
                    successes += 1;
                },
                OutcomeKind::HttpFailure => {
                    http_failures += 1;
                },
                OutcomeKind::NetworkError => {
                    network_errors += 1;
                },
            }
            i += 1;
        }
        proof {
            assert(self.records@.take(i as int) =~= self.records@);
        }
        BurstSummary { attempts: self.records.len(), successes, http_failures, network_errors }
    }
}

/// Launches are handed out in order and spaced by the stagger: a later
/// attempt leaves at least two milliseconds after an earlier one, and two
/// milliseconds more for each attempt between them.
pub proof fn lemma_launches_are_staggered(earlier: int, later: int)
    requires
        1 <= earlier < later,
    ensures
        launch_offset_of(later) - launch_offset_of(earlier) == (later - earlier)
            * LAUNCH_STAGGER_MS,
        launch_offset_of(later) - launch_offset_of(earlier) >= LAUNCH_STAGGER_MS,
{
    assert((later - 1) * 2 - (earlier - 1) * 2 == (later - earlier) * 2);
}

/// The launch numbers of the records, in the order the records came in.
pub open spec fn sequence_numbers_of(records: Seq<AttemptRecord>) -> Seq<int> {
    records.map_values(|record: AttemptRecord| record.sequence_number as int)
}

/// A dispatcher never holds more records than it has launched attempts.
pub proof fn lemma_records_bounded_by_launches(burst: BurstView)
    requires
        burst.well_formed(),
    ensures
        burst.records.len() <= burst.launched,
{
    let numbers = sequence_numbers_of(burst.records);
    assert(numbers.no_duplicates());
    numbers.unique_seq_to_set();
    let launched = set_int_range(1, burst.launched + 1);
    lemma_int_range(1, burst.launched + 1);
    assert forall|k: int| numbers.to_set().contains(k) implies launched.contains(k) by {
        let i = choose|i: int| 0 <= i < numbers.len() && numbers[i] == k;
        assert(burst.records[i].sequence_number == k);
    }
    lemma_len_subset(numbers.to_set(), launched);
}

/// Once a burst is complete every attempt has its record: each launch number
/// from 1 to the size of the burst is recorded, and recorded once.
pub proof fn lemma_complete_burst_records_every_attempt(burst: BurstView)
    requires
        burst.well_formed(),
        burst.complete(),
    ensures
        forall|k: int| 1 <= k <= burst.size ==> recorded(burst.records, k),
        forall|i: int, j: int|
            0 <= i < burst.records.len() && 0 <= j < burst.records.len() && i != j
                ==> burst.records[i].sequence_number != burst.records[j].sequence_number,
{
    let numbers = sequence_numbers_of(burst.records);
    assert(numbers.no_duplicates());
    numbers.unique_seq_to_set();
    assert forall|k: int| 1 <= k <= burst.size implies recorded(burst.records, k) by {
        if !recorded(burst.records, k) {
            let others = set_int_range(1, burst.size + 1).remove(k);
            lemma_int_range(1, burst.size + 1);
            assert forall|m: int| numbers.to_set().contains(m) implies others.contains(m) by {
                let i = choose|i: int| 0 <= i < numbers.len() && numbers[i] == m;
                assert(burst.records[i].sequence_number == m);
            }
            lemma_len_subset(numbers.to_set(), others);
        }
    }
}

/// The place in `records` of the record of attempt `sequence_number`.
pub open spec fn place_of(records: Seq<AttemptRecord>, sequence_number: int) -> int {
    choose|i: int| 0 <= i < records.len() && #[trigger] records[i].sequence_number == sequence_number
}

/// Whether the caller kept the pause after each launch: each attempt was sent
/// no sooner than two milliseconds after the attempt launched before it.
pub open spec fn sent_with_pauses(records: Seq<AttemptRecord>) -> bool {
    forall|i: int, j: int|
        0 <= i < records.len() && 0 <= j < records.len() && (#[trigger] records[j]).sequence_number
            == (#[trigger] records[i]).sequence_number + 1 ==> records[j].actual_send_instant@
            - records[i].actual_send_instant@ >= LAUNCH_STAGGER_MS * NANOS_PER_MILLI
}

/// In a complete burst whose caller kept the pauses, attempt `later` was sent
/// after attempt `earlier` by two milliseconds for each launch between them.
pub proof fn lemma_pauses_add_up(burst: BurstView, earlier: int, later: int)
    requires
        burst.well_formed(),
        burst.complete(),
        sent_with_pauses(burst.records),
        1 <= earlier <= later <= burst.size,
    ensures
        0 <= place_of(burst.records, earlier) < burst.records.len(),
        0 <= place_of(burst.records, later) < burst.records.len(),
        burst.records[place_of(burst.records, earlier)].sequence_number == earlier,
        burst.records[place_of(burst.records, later)].sequence_number == later,
        burst.records[place_of(burst.records, later)].actual_send_instant@
            - burst.records[place_of(burst.records, earlier)].actual_send_instant@ >= (later
            - earlier) * (LAUNCH_STAGGER_MS * NANOS_PER_MILLI),
    decreases later - earlier,
{
    lemma_complete_burst_records_every_attempt(burst);
    assert(recorded(burst.records, earlier));
    assert(recorded(burst.records, later));
    if earlier < later {
        lemma_pauses_add_up(burst, earlier, later - 1);
        let i = place_of(burst.records, later - 1);
        let j = place_of(burst.records, later);
        assert(burst.records[j].sequence_number == burst.records[i].sequence_number + 1);
        assert((later - earlier) * (LAUNCH_STAGGER_MS * NANOS_PER_MILLI) == (later - 1 - earlier)
            * (LAUNCH_STAGGER_MS * NANOS_PER_MILLI) + LAUNCH_STAGGER_MS * NANOS_PER_MILLI)
            by (nonlinear_arith);
    }
}

/// In a complete burst whose caller kept the pause after each launch, the
/// send instants follow the launch order, whatever order the records came in:
/// of any two records, the one with the higher launch number was sent later,
/// by at least two milliseconds for each launch between them.
pub proof fn lemma_sends_follow_launch_order(burst: BurstView, i: int, j: int)
    requires
        burst.well_formed(),
        burst.complete(),
        sent_with_pauses(burst.records),
        0 <= i < burst.records.len(),
        0 <= j < burst.records.len(),
        burst.records[i].sequence_number < burst.records[j].sequence_number,
    ensures
        burst.records[j].actual_send_instant@ - burst.records[i].actual_send_instant@ >= (
        burst.records[j].sequence_number - burst.records[i].sequence_number) * (LAUNCH_STAGGER_MS
            * NANOS_PER_MILLI),
        burst.records[j].actual_send_instant@ - burst.records[i].actual_send_instant@
            >= LAUNCH_STAGGER_MS * NANOS_PER_MILLI,
        burst.records[i].actual_send_instant@ < burst.records[j].actual_send_instant@,
{
    let earlier = burst.records[i].sequence_number as int;
    let later = burst.records[j].sequence_number as int;
    lemma_records_bounded_by_launches(burst);
    lemma_pauses_add_up(burst, earlier, later);
    let a = place_of(burst.records, earlier);
    let b = place_of(burst.records, later);
    assert(a == i) by {
        if a != i {
            if a < i {
                assert(burst.records[a].sequence_number != burst.records[i].sequence_number);
            } else {
                assert(burst.records[i].sequence_number != burst.records[a].sequence_number);
            }
        }
    }
    assert(b == j) by {
        if b != j {
            if b < j {
                assert(burst.records[b].sequence_number != burst.records[j].sequence_number);
            } else {
                assert(burst.records[j].sequence_number != burst.records[b].sequence_number);
            }
        }
    }
    assert((later - earlier) * (LAUNCH_STAGGER_MS * NANOS_PER_MILLI) >= LAUNCH_STAGGER_MS
        * NANOS_PER_MILLI) by (nonlinear_arith)
        requires
            later - earlier >= 1,
    ;
}

/// Every record falls under exactly one outcome: the three counts add up to
/// the number of records.
pub proof fn lemma_counts_add_up(records: Seq<AttemptRecord>)
    ensures
        count_kind(records, OutcomeKind::Success) + count_kind(records, OutcomeKind::HttpFailure)
            + count_kind(records, OutcomeKind::NetworkError) == records.len(),
    decreases records.len(),
{
    if records.len() > 0 {
        lemma_counts_add_up(records.drop_last());
    }
}

} // verus!
