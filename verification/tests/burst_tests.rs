use mc_snipbot::burst::{
    classify_response, AttemptOutcome, AttemptRecord, BurstDispatcher, BurstSummary, Launch,
    OutcomeKind, ATTEMPT_CONNECT_TIMEOUT_SECS, ATTEMPT_TIMEOUT_SECS, LAUNCH_STAGGER_MS,
};
use mc_snipbot::instant::UtcInstant;

fn at_millis(millis: i64) -> UtcInstant {
    UtcInstant::from_epoch_millis(millis).unwrap()
}

const FIRE_MS: i64 = 1_893_455_999_980;

/// Runs a burst against an endpoint that answers attempt `k` with
/// `answers[k - 1]`; the records come in in the order `completion`.
fn run_burst(answers: &Vec<Result<u16, String>>, completion: &Vec<u8>) -> BurstDispatcher {
    let mut dispatcher = BurstDispatcher::new(answers.len() as u8, at_millis(FIRE_MS));
    let mut sent = Vec::new();
    let mut clock_ms = FIRE_MS;
    while let Some(launch) = dispatcher.next_launch() {
        sent.push((launch.sequence_number, at_millis(clock_ms)));
        clock_ms += launch.pause_after_ms as i64;
    }
    for sequence_number in completion {
        let (_, sent_at) = sent[*sequence_number as usize - 1];
        let answer = answers[*sequence_number as usize - 1].clone();
        assert!(dispatcher.record(*sequence_number, sent_at, answer));
    }
    dispatcher
}

#[test]
fn statuses_in_the_two_hundreds_are_successes() {
    assert_eq!(classify_response(Ok(200)), AttemptOutcome::Success);
    assert_eq!(classify_response(Ok(204)), AttemptOutcome::Success);
    assert_eq!(classify_response(Ok(299)), AttemptOutcome::Success);
    assert_eq!(classify_response(Ok(199)), AttemptOutcome::HttpFailure(199));
    assert_eq!(classify_response(Ok(300)), AttemptOutcome::HttpFailure(300));
    assert_eq!(classify_response(Ok(403)), AttemptOutcome::HttpFailure(403));
    assert_eq!(classify_response(Ok(429)), AttemptOutcome::HttpFailure(429));
    assert_eq!(classify_response(Ok(0)), AttemptOutcome::HttpFailure(0));
    assert_eq!(classify_response(Ok(u16::MAX)), AttemptOutcome::HttpFailure(u16::MAX));
}

#[test]
fn an_error_is_a_network_error_with_its_message() {
    assert_eq!(
        classify_response(Err("operation timed out".to_string())),
        AttemptOutcome::NetworkError("operation timed out".to_string())
    );
    assert_eq!(classify_response(Err(String::new())), AttemptOutcome::NetworkError(String::new()));
}

#[test]
fn outcome_kinds() {
    assert_eq!(AttemptOutcome::Success.outcome_kind(), OutcomeKind::Success);
    assert_eq!(AttemptOutcome::HttpFailure(500).outcome_kind(), OutcomeKind::HttpFailure);
    assert_eq!(
        AttemptOutcome::NetworkError("reset".to_string()).outcome_kind(),
        OutcomeKind::NetworkError
    );
}

#[test]
fn launches_are_numbered_in_order_and_staggered() {
    assert_eq!(LAUNCH_STAGGER_MS, 2);
    let mut dispatcher = BurstDispatcher::new(3, at_millis(FIRE_MS));
    assert_eq!(dispatcher.size(), 3);
    assert_eq!(dispatcher.launched(), 0);
    assert_eq!(dispatcher.planned_instant(), at_millis(FIRE_MS));
    assert_eq!(
        dispatcher.next_launch(),
        Some(Launch { sequence_number: 1, offset_ms: 0, pause_after_ms: 2 })
    );
    assert_eq!(
        dispatcher.next_launch(),
        Some(Launch { sequence_number: 2, offset_ms: 2, pause_after_ms: 2 })
    );
    assert_eq!(
        dispatcher.next_launch(),
        Some(Launch { sequence_number: 3, offset_ms: 4, pause_after_ms: 2 })
    );
    assert_eq!(dispatcher.next_launch(), None);
    assert_eq!(dispatcher.next_launch(), None);
    assert_eq!(dispatcher.launched(), 3);
}

#[test]
fn largest_burst_launches_every_attempt() {
    let mut dispatcher = BurstDispatcher::new(u8::MAX, at_millis(FIRE_MS));
    let mut count: u32 = 0;
    let mut last_offset = 0;
    while let Some(launch) = dispatcher.next_launch() {
        count += 1;
        assert_eq!(launch.sequence_number as u32, count);
        assert_eq!(launch.offset_ms, (count as u64 - 1) * 2);
        last_offset = launch.offset_ms;
    }
    assert_eq!(count, 255);
    assert_eq!(last_offset, 508);
}

#[test]
fn empty_burst_is_complete_at_once() {
    let mut dispatcher = BurstDispatcher::new(0, at_millis(FIRE_MS));
    assert!(dispatcher.is_complete());
    assert_eq!(dispatcher.next_launch(), None);
    assert!(!dispatcher.record(1, at_millis(FIRE_MS), Ok(200)));
    assert_eq!(
        dispatcher.summary(),
        BurstSummary { attempts: 0, successes: 0, http_failures: 0, network_errors: 0 }
    );
}

#[test]
fn eight_attempts_against_an_endpoint_that_always_answers_200() {
    let answers: Vec<Result<u16, String>> = vec![Ok(200); 8];
    let dispatcher = run_burst(&answers, &vec![1, 2, 3, 4, 5, 6, 7, 8]);
    assert!(dispatcher.is_complete());
    let records = dispatcher.records();
    assert_eq!(records.len(), 8);
    for record in records.iter() {
        assert_eq!(record.outcome, AttemptOutcome::Success);
        assert_eq!(record.planned_instant, at_millis(FIRE_MS));
    }
    for pair in records.windows(2) {
        assert!(pair[0].sequence_number < pair[1].sequence_number);
        assert!(pair[0].actual_send_instant < pair[1].actual_send_instant);
        assert!(pair[0].actual_send_instant.millis_until(&pair[1].actual_send_instant) >= 2);
    }
    assert_eq!(records[0].sequence_number, 1);
    assert_eq!(records[7].sequence_number, 8);
    assert!(dispatcher.kept_pauses());
    assert_eq!(
        dispatcher.summary(),
        BurstSummary { attempts: 8, successes: 8, http_failures: 0, network_errors: 0 }
    );
}

#[test]
fn one_timeout_among_successes() {
    let mut answers: Vec<Result<u16, String>> = vec![Ok(200); 8];
    answers[4] = Err("operation timed out".to_string());
    let dispatcher = run_burst(&answers, &vec![1, 2, 3, 4, 6, 7, 8, 5]);
    assert!(dispatcher.is_complete());
    assert_eq!(
        dispatcher.summary(),
        BurstSummary { attempts: 8, successes: 7, http_failures: 0, network_errors: 1 }
    );
    let timed_out = dispatcher.find(5).unwrap();
    assert_eq!(timed_out.outcome, AttemptOutcome::NetworkError("operation timed out".to_string()));
    for sequence_number in [1u8, 2, 3, 4, 6, 7, 8] {
        assert_eq!(dispatcher.find(sequence_number).unwrap().outcome, AttemptOutcome::Success);
    }
}

#[test]
fn records_come_in_any_order_and_keep_their_launch_number() {
    let answers: Vec<Result<u16, String>> =
        vec![Ok(429), Ok(200), Err("connection reset".to_string()), Ok(403)];
    let dispatcher = run_burst(&answers, &vec![3, 1, 4, 2]);
    let order: Vec<u8> = dispatcher.records().iter().map(|r| r.sequence_number).collect();
    assert_eq!(order, vec![3, 1, 4, 2]);
    assert_eq!(
        dispatcher.find(1),
        Some(&AttemptRecord {
            sequence_number: 1,
            planned_instant: at_millis(FIRE_MS),
            actual_send_instant: at_millis(FIRE_MS),
            outcome: AttemptOutcome::HttpFailure(429),
        })
    );
    assert_eq!(dispatcher.find(3).unwrap().actual_send_instant, at_millis(FIRE_MS + 4));
    assert_eq!(dispatcher.find(5), None);
    assert_eq!(dispatcher.find(0), None);
    assert_eq!(
        dispatcher.summary(),
        BurstSummary { attempts: 4, successes: 1, http_failures: 2, network_errors: 1 }
    );
}

#[test]
fn a_record_is_taken_once_and_only_of_a_launched_attempt() {
    let mut dispatcher = BurstDispatcher::new(3, at_millis(FIRE_MS));
    assert!(!dispatcher.record(1, at_millis(FIRE_MS), Ok(200)));
    dispatcher.next_launch();
    dispatcher.next_launch();
    assert!(!dispatcher.record(0, at_millis(FIRE_MS), Ok(200)));
    assert!(!dispatcher.record(3, at_millis(FIRE_MS), Ok(200)));
    assert!(dispatcher.record(2, at_millis(FIRE_MS + 2), Ok(200)));
    assert!(dispatcher.has_record(2));
    assert!(!dispatcher.has_record(1));
    assert!(!dispatcher.record(2, at_millis(FIRE_MS + 9), Ok(500)));
    assert_eq!(dispatcher.records().len(), 1);
    assert_eq!(dispatcher.find(2).unwrap().outcome, AttemptOutcome::Success);
    assert!(!dispatcher.is_complete());
    assert!(dispatcher.record(1, at_millis(FIRE_MS), Ok(200)));
    assert!(!dispatcher.is_complete());
    dispatcher.next_launch();
    assert!(!dispatcher.is_complete());
    assert!(dispatcher.record(3, at_millis(FIRE_MS + 4), Ok(200)));
    assert!(dispatcher.is_complete());
}

#[test]
fn summary_counts_add_up() {
    let answers: Vec<Result<u16, String>> = vec![
        Ok(200),
        Ok(500),
        Err("dns".to_string()),
        Ok(201),
        Err("timeout".to_string()),
        Ok(302),
        Ok(204),
    ];
    let dispatcher = run_burst(&answers, &vec![7, 6, 5, 4, 3, 2, 1]);
    let summary = dispatcher.summary();
    assert_eq!(
        summary,
        BurstSummary { attempts: 7, successes: 3, http_failures: 2, network_errors: 2 }
    );
    assert_eq!(summary.successes + summary.http_failures + summary.network_errors, summary.attempts);
}

#[test]
fn attempts_are_bounded_in_time() {
    assert_eq!(ATTEMPT_CONNECT_TIMEOUT_SECS, 5);
    assert_eq!(ATTEMPT_TIMEOUT_SECS, 10);
}

#[test]
fn records_show_whether_the_pauses_were_kept() {
    let answers: Vec<Result<u16, String>> = vec![Ok(200); 4];
    assert!(run_burst(&answers, &vec![4, 2, 1, 3]).kept_pauses());
    assert!(BurstDispatcher::new(0, at_millis(FIRE_MS)).kept_pauses());
    let mut hurried = BurstDispatcher::new(3, at_millis(FIRE_MS));
    while hurried.next_launch().is_some() {}
    assert!(hurried.record(1, at_millis(FIRE_MS), Ok(200)));
    assert!(hurried.kept_pauses());
    assert!(hurried.record(3, at_millis(FIRE_MS + 1), Ok(200)));
    assert!(hurried.kept_pauses());
    assert!(hurried.record(2, at_millis(FIRE_MS + 2), Ok(200)));
    assert!(!hurried.kept_pauses());
    let mut exact = BurstDispatcher::new(2, at_millis(FIRE_MS));
    while exact.next_launch().is_some() {}
    assert!(exact.record(2, at_millis(FIRE_MS + 2), Ok(200)));
    assert!(exact.record(1, at_millis(FIRE_MS), Ok(500)));
    assert!(exact.kept_pauses());
}

#[test]
fn kept_pauses_put_the_send_instants_in_launch_order() {
    let answers: Vec<Result<u16, String>> = vec![Ok(200); 8];
    let dispatcher = run_burst(&answers, &vec![8, 1, 7, 2, 6, 3, 5, 4]);
    assert!(dispatcher.is_complete());
    assert!(dispatcher.kept_pauses());
    let records = dispatcher.records();
    for a in records.iter() {
        for b in records.iter() {
            if a.sequence_number < b.sequence_number {
                let gap = a.actual_send_instant.millis_until(&b.actual_send_instant);
                assert!(gap >= 2 * (b.sequence_number - a.sequence_number) as i64);
            }
        }
    }
}
