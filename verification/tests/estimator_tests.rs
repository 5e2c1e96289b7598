use mc_snipbot::estimator::{
    best_sample_index, compensate, reconcile, spread_millis, Confidence, SyncRound, TimeEstimate,
    TimeSample, MAX_SAMPLES, SPREAD_LIMIT_MS,
};
use mc_snipbot::instant::{UtcInstant, MAX_EPOCH_NANOS, MIN_EPOCH_NANOS};
use mc_snipbot::time_source::TimeSourceError;

fn at_millis(millis: i64) -> UtcInstant {
    UtcInstant::from_epoch_millis(millis).unwrap()
}

fn observed(millis: i64, latency_ms: u64, source: &str) -> TimeSample {
    TimeSample {
        observed_instant: at_millis(millis),
        measured_latency_nanos: latency_ms * 1_000_000,
        source_id: source.to_string(),
        reduced_confidence: false,
    }
}

#[test]
fn compensation_adds_half_the_latency() {
    let raw = at_millis(1_000_000);
    assert_eq!(compensate(raw, 0).unwrap(), raw);
    assert_eq!(compensate(raw, 200_000_000).unwrap().epoch_millis(), 1_000_100);
    assert_eq!(compensate(raw, 1).unwrap(), raw);
    assert_eq!(compensate(raw, 2).unwrap().epoch_nanos(), 1_000_000_000_001);
    assert_eq!(compensate(raw, 3).unwrap().epoch_nanos(), 1_000_000_000_001);
    assert_eq!(
        compensate(raw, u64::MAX).unwrap().epoch_nanos(),
        1_000_000_000_000 + (u64::MAX / 2) as i128
    );
}

#[test]
fn compensation_is_monotonic_in_latency() {
    let raw = at_millis(-42);
    let mut previous = compensate(raw, 0).unwrap();
    for latency in [1u64, 2, 3, 10, 999, 1_000, 1_000_001, 6_000_000_000] {
        let next = compensate(raw, latency).unwrap();
        assert!(next >= previous);
        assert_eq!(raw.nanos_until(&next), (latency / 2) as i128);
        previous = next;
    }
}

#[test]
fn compensation_stops_at_the_end_of_the_range() {
    let last = UtcInstant::from_epoch_nanos(MAX_EPOCH_NANOS).unwrap();
    assert_eq!(compensate(last, 1).unwrap(), last);
    assert!(compensate(last, 2).is_none());
    let first = UtcInstant::from_epoch_nanos(MIN_EPOCH_NANOS).unwrap();
    assert_eq!(compensate(first, 2).unwrap().epoch_nanos(), MIN_EPOCH_NANOS + 1);
}

#[test]
fn sample_holds_the_compensated_instant() {
    let sample = TimeSample::new(at_millis(5_000), 300_000_000, "alpha".to_string(), false).unwrap();
    assert_eq!(sample.observed_instant.epoch_millis(), 5_150);
    assert_eq!(sample.measured_latency_nanos, 300_000_000);
    assert_eq!(sample.source_id, "alpha");
    assert!(!sample.reduced_confidence);
    let stand_in = TimeSample::new(at_millis(5_000), 0, "alpha".to_string(), true).unwrap();
    assert_eq!(stand_in.observed_instant, at_millis(5_000));
    assert!(stand_in.reduced_confidence);
    let last = UtcInstant::from_epoch_nanos(MAX_EPOCH_NANOS).unwrap();
    assert!(TimeSample::new(last, 2, "alpha".to_string(), false).is_none());
}

#[test]
fn no_sample_gives_the_low_confidence_fallback() {
    let system_now = at_millis(777);
    let estimate = reconcile(&Vec::new(), system_now);
    assert_eq!(estimate, TimeEstimate { instant: system_now, confidence: Confidence::Low });
}

#[test]
fn one_sample_is_believed() {
    let samples = vec![observed(1_000, 80, "alpha")];
    let estimate = reconcile(&samples, at_millis(0));
    assert_eq!(estimate.confidence, Confidence::High);
    assert_eq!(estimate.instant, at_millis(1_000));
}

#[test]
fn narrow_spread_gives_the_lowest_latency_sample() {
    let samples = vec![
        observed(10_000, 120, "alpha"),
        observed(10_900, 35, "beta"),
        observed(11_500, 300, "gamma"),
        observed(9_500, 36, "delta"),
    ];
    let estimate = reconcile(&samples, at_millis(0));
    assert_eq!(estimate.confidence, Confidence::High);
    assert_eq!(estimate.instant, at_millis(10_900));
}

#[test]
fn spread_of_exactly_two_seconds_is_still_narrow() {
    assert_eq!(SPREAD_LIMIT_MS, 2_000);
    let samples = vec![observed(10_000, 50, "alpha"), observed(12_000, 20, "beta")];
    assert_eq!(reconcile(&samples, at_millis(0)).instant, at_millis(12_000));
    let wider = vec![observed(10_000, 50, "alpha"), observed(12_001, 20, "beta")];
    assert_eq!(reconcile(&wider, at_millis(0)).instant, at_millis(11_000));
}

#[test]
fn wide_spread_gives_the_mean_of_all_samples() {
    let samples = vec![
        observed(10_000, 10, "alpha"),
        observed(20_000, 500, "beta"),
        observed(30_003, 900, "gamma"),
    ];
    let estimate = reconcile(&samples, at_millis(0));
    assert_eq!(estimate.confidence, Confidence::High);
    assert_eq!(estimate.instant.epoch_millis(), 20_001);
    assert_eq!(estimate.instant.epoch_nanos(), 20_001_000_000);
}

#[test]
fn spread_is_taken_between_any_two_samples() {
    let samples = vec![
        observed(10_000, 10, "alpha"),
        observed(9_000, 50, "beta"),
        observed(11_000, 60, "gamma"),
    ];
    let estimate = reconcile(&samples, at_millis(0));
    assert_eq!(estimate.instant.epoch_millis(), 10_000);
    // Each of the others is within two seconds of the lowest-latency sample,
    // but the two of them lie more than three seconds apart.
    let samples = vec![
        observed(10_000, 10, "alpha"),
        observed(8_500, 50, "beta"),
        observed(11_800, 60, "gamma"),
    ];
    let estimate = reconcile(&samples, at_millis(0));
    assert_eq!(estimate.instant.epoch_millis(), 10_100);
}

#[test]
fn mean_rounds_towards_zero() {
    let after = vec![observed(0, 1, "alpha"), observed(2_001, 1, "beta")];
    assert_eq!(reconcile(&after, at_millis(0)).instant.epoch_millis(), 1_000);
    let before = vec![observed(0, 1, "alpha"), observed(-2_001, 1, "beta")];
    assert_eq!(reconcile(&before, at_millis(0)).instant.epoch_millis(), -1_000);
    let mixed = vec![observed(-5_000, 1, "alpha"), observed(5_001, 1, "beta")];
    assert_eq!(reconcile(&mixed, at_millis(0)).instant.epoch_millis(), 0);
}

#[test]
fn mean_uses_the_millisecond_of_each_sample() {
    let fine = TimeSample {
        observed_instant: UtcInstant::from_epoch_nanos(2_999_999).unwrap(),
        measured_latency_nanos: 5,
        source_id: "alpha".to_string(),
        reduced_confidence: false,
    };
    let samples = vec![fine, observed(4_002, 9, "beta")];
    let estimate = reconcile(&samples, at_millis(0));
    assert_eq!(estimate.instant.epoch_nanos(), 2_002_000_000);
}

#[test]
fn equal_latencies_go_to_the_earlier_source() {
    let samples = vec![
        observed(10_000, 50, "alpha"),
        observed(10_400, 20, "beta"),
        observed(10_800, 20, "gamma"),
    ];
    assert_eq!(reconcile(&samples, at_millis(0)).instant, at_millis(10_400));
}

#[test]
fn best_sample_keeps_its_nanoseconds() {
    let fine = TimeSample {
        observed_instant: UtcInstant::from_epoch_nanos(1_234_567_891).unwrap(),
        measured_latency_nanos: 5,
        source_id: "alpha".to_string(),
        reduced_confidence: false,
    };
    let samples = vec![observed(1_000, 10, "beta"), fine];
    assert_eq!(reconcile(&samples, at_millis(0)).instant.epoch_nanos(), 1_234_567_891);
}

#[test]
fn mean_of_samples_at_the_ends_of_the_range() {
    let first = TimeSample {
        observed_instant: UtcInstant::from_epoch_nanos(MIN_EPOCH_NANOS).unwrap(),
        measured_latency_nanos: 5,
        source_id: "alpha".to_string(),
        reduced_confidence: false,
    };
    let last = TimeSample {
        observed_instant: UtcInstant::from_epoch_nanos(MAX_EPOCH_NANOS).unwrap(),
        measured_latency_nanos: 6,
        source_id: "beta".to_string(),
        reduced_confidence: false,
    };
    let estimate = reconcile(&vec![first, last], at_millis(0));
    assert_eq!(estimate.confidence, Confidence::High);
    assert_eq!(
        estimate.instant.epoch_millis(),
        (-8_334_601_228_800_000i64 + 8_210_266_876_799_999i64) / 2
    );
}

#[test]
fn round_asks_the_sources_in_order() {
    let mut round = SyncRound::new(3);
    assert_eq!(round.next_query(), Some(0));
    assert!(round.record(Err(TimeSourceError::Transport)));
    assert_eq!(round.next_query(), Some(1));
    assert!(round.record(Ok(observed(1_000, 10, "beta"))));
    assert_eq!(round.next_query(), Some(2));
    assert!(round.record(Err(TimeSourceError::Parse)));
    assert_eq!(round.next_query(), None);
    assert!(!round.record(Ok(observed(2_000, 10, "late"))));
    assert_eq!(round.samples().len(), 1);
    assert_eq!(round.samples()[0].source_id, "beta");
}

#[test]
fn round_stops_at_five_samples() {
    assert_eq!(MAX_SAMPLES, 5);
    let mut round = SyncRound::new(9);
    let mut asked = Vec::new();
    while let Some(source) = round.next_query() {
        asked.push(source);
        let outcome = if source == 1 {
            Err(TimeSourceError::Transport)
        } else {
            Ok(observed(1_000 + source as i64, 10 + source as u64, "source"))
        };
        assert!(round.record(outcome));
    }
    assert_eq!(asked, vec![0, 1, 2, 3, 4, 5]);
    assert_eq!(round.samples().len(), 5);
    assert_eq!(round.finish(at_millis(0)).instant, at_millis(1_000));
}

#[test]
fn round_without_sources_falls_back() {
    let mut round = SyncRound::new(0);
    assert_eq!(round.next_query(), None);
    assert!(!round.record(Err(TimeSourceError::Transport)));
    let estimate = round.finish(at_millis(55));
    assert_eq!(estimate, TimeEstimate { instant: at_millis(55), confidence: Confidence::Low });
}

#[test]
fn round_of_failures_falls_back() {
    let mut round = SyncRound::new(2);
    assert!(round.record(Err(TimeSourceError::Transport)));
    assert!(round.record(Err(TimeSourceError::Parse)));
    assert_eq!(round.next_query(), None);
    assert_eq!(round.finish(at_millis(9)).confidence, Confidence::Low);
    assert_eq!(round.finish(at_millis(9)).instant, at_millis(9));
}

fn stand_in(millis: i64, latency_ms: u64, source: &str) -> TimeSample {
    TimeSample {
        observed_instant: at_millis(millis),
        measured_latency_nanos: latency_ms * 1_000_000,
        source_id: source.to_string(),
        reduced_confidence: true,
    }
}

#[test]
fn round_of_stand_ins_is_no_synchronisation() {
    let samples = vec![stand_in(10_000, 40, "alpha")];
    let estimate = reconcile(&samples, at_millis(0));
    assert_eq!(estimate, TimeEstimate { instant: at_millis(10_000), confidence: Confidence::Low });
    let samples = vec![stand_in(10_000, 40, "alpha"), stand_in(10_300, 20, "beta")];
    let estimate = reconcile(&samples, at_millis(0));
    assert_eq!(estimate, TimeEstimate { instant: at_millis(10_300), confidence: Confidence::Low });
    let samples = vec![stand_in(10_000, 40, "alpha"), stand_in(14_000, 20, "beta")];
    let estimate = reconcile(&samples, at_millis(0));
    assert_eq!(estimate, TimeEstimate { instant: at_millis(12_000), confidence: Confidence::Low });
}

#[test]
fn one_reported_time_makes_a_synchronisation() {
    for place in 0..3 {
        let mut samples =
            vec![stand_in(10_000, 40, "alpha"), stand_in(10_100, 30, "beta"), stand_in(10_200, 50, "gamma")];
        samples[place].reduced_confidence = false;
        let estimate = reconcile(&samples, at_millis(0));
        assert_eq!(estimate, TimeEstimate { instant: at_millis(10_100), confidence: Confidence::High });
    }
}

#[test]
fn round_of_stand_ins_finishes_with_low_confidence() {
    let mut round = SyncRound::new(2);
    assert!(round.record(Ok(stand_in(5_000, 10, "alpha"))));
    assert!(round.record(Ok(stand_in(5_400, 30, "beta"))));
    let estimate = round.finish(at_millis(9));
    assert_eq!(estimate, TimeEstimate { instant: at_millis(5_000), confidence: Confidence::Low });
}

#[test]
fn best_sample_is_the_first_of_lowest_latency() {
    assert_eq!(best_sample_index(&Vec::new()), None);
    assert_eq!(best_sample_index(&vec![observed(1, 9, "alpha")]), Some(0));
    let samples = vec![
        observed(1, 50, "alpha"),
        observed(2, 20, "beta"),
        observed(3, 20, "gamma"),
        observed(4, 21, "delta"),
    ];
    assert_eq!(best_sample_index(&samples), Some(1));
    let falling = vec![observed(1, 3, "alpha"), observed(2, 2, "beta"), observed(3, 1, "gamma")];
    assert_eq!(best_sample_index(&falling), Some(2));
}

#[test]
fn spread_is_latest_less_earliest() {
    assert_eq!(spread_millis(&Vec::new()), 0);
    assert_eq!(spread_millis(&vec![observed(7_000, 9, "alpha")]), 0);
    let samples = vec![observed(10_000, 1, "alpha"), observed(8_500, 1, "beta"), observed(11_800, 1, "gamma")];
    assert_eq!(spread_millis(&samples), 3_300);
    let ends = vec![
        TimeSample {
            observed_instant: UtcInstant::from_epoch_nanos(MIN_EPOCH_NANOS).unwrap(),
            measured_latency_nanos: 1,
            source_id: "first".to_string(),
            reduced_confidence: false,
        },
        TimeSample {
            observed_instant: UtcInstant::from_epoch_nanos(MAX_EPOCH_NANOS).unwrap(),
            measured_latency_nanos: 1,
            source_id: "last".to_string(),
            reduced_confidence: false,
        },
    ];
    assert_eq!(spread_millis(&ends), 8_210_266_876_799_999 + 8_334_601_228_800_000);
}
