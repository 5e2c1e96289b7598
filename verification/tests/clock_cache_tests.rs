use mc_snipbot::clock_cache::{
    CacheReading, ClockCache, ClockEstimate, TimeBasis, RESYNC_INTERVAL_NANOS,
};
use mc_snipbot::estimator::{Confidence, TimeEstimate};
use mc_snipbot::instant::{UtcInstant, MAX_EPOCH_NANOS};

fn at_millis(millis: i64) -> UtcInstant {
    UtcInstant::from_epoch_millis(millis).unwrap()
}

const MS: u64 = 1_000_000;

#[test]
fn empty_cache_asks_for_a_resync() {
    let cache = ClockCache::new();
    assert!(!cache.has_estimate());
    assert_eq!(cache.estimate(), None);
    assert_eq!(cache.get_now(0), CacheReading::ResyncDue);
    assert_eq!(cache.get_now(u64::MAX), CacheReading::ResyncDue);
    assert_eq!(cache.extrapolate(5), None);
}

#[test]
fn reads_follow_the_monotonic_clock() {
    let mut cache = ClockCache::new();
    cache.store(at_millis(1_000_000), 500 * MS);
    assert!(cache.has_estimate());
    assert_eq!(cache.get_now(500 * MS), CacheReading::Now(at_millis(1_000_000)));
    assert_eq!(cache.get_now(600 * MS), CacheReading::Now(at_millis(1_000_100)));
    assert_eq!(cache.get_now(700 * MS), CacheReading::Now(at_millis(1_000_200)));
    assert_eq!(
        cache.get_now(500 * MS + 1),
        CacheReading::Now(UtcInstant::from_epoch_nanos(1_000_000_000_001).unwrap())
    );
}

#[test]
fn two_reads_a_tenth_of_a_second_apart_differ_by_a_tenth_of_a_second() {
    let mut cache = ClockCache::new();
    cache.store(at_millis(1_893_455_000_000), 7 * MS);
    for age_ms in [0u64, 1, 999, 20_000, 44_900] {
        let first = cache.get_now((7 + age_ms) * MS);
        let second = cache.get_now((7 + age_ms + 100) * MS);
        match (first, second) {
            (CacheReading::Now(a), CacheReading::Now(b)) => {
                assert_eq!(a.nanos_until(&b), 100_000_000);
                assert_eq!(a.millis_until(&b), 100);
            }
            _ => panic!("the estimate is fresh"),
        }
    }
}

#[test]
fn reading_does_not_wear_the_cache() {
    let mut cache = ClockCache::new();
    cache.store(at_millis(42), 10);
    let before = cache.estimate();
    let first = cache.get_now(1_000);
    let again = cache.get_now(1_000);
    assert_eq!(first, again);
    assert_eq!(cache.estimate(), before);
    assert_eq!(cache.estimate().unwrap().authoritative_instant(), at_millis(42));
    assert_eq!(cache.estimate().unwrap().captured_at(), 10);
}

#[test]
fn estimate_is_fresh_up_to_the_resync_interval() {
    assert_eq!(RESYNC_INTERVAL_NANOS, 45_000_000_000);
    let mut cache = ClockCache::new();
    cache.store(at_millis(0), 1_000);
    assert_eq!(cache.get_now(1_000 + RESYNC_INTERVAL_NANOS), CacheReading::Now(at_millis(45_000)));
    assert_eq!(cache.get_now(1_000 + RESYNC_INTERVAL_NANOS + 1), CacheReading::ResyncDue);
    assert_eq!(
        cache.extrapolate(1_000 + RESYNC_INTERVAL_NANOS + 1),
        Some(UtcInstant::from_epoch_nanos(45_000_000_001).unwrap())
    );
}

#[test]
fn reading_before_the_capture_counts_no_time() {
    let mut cache = ClockCache::new();
    cache.store(at_millis(9_000), 5_000);
    assert_eq!(cache.get_now(4_000), CacheReading::Now(at_millis(9_000)));
    assert_eq!(cache.extrapolate(0), Some(at_millis(9_000)));
}

#[test]
fn store_replaces_the_estimate() {
    let mut cache = ClockCache::new();
    cache.store(at_millis(1), 1);
    cache.store(at_millis(2), 2);
    assert_eq!(cache.estimate(), Some(ClockEstimate::new(at_millis(2), 2)));
}

#[test]
fn estimate_at_the_end_of_the_range_cannot_be_carried_forward() {
    let mut cache = ClockCache::new();
    let last = UtcInstant::from_epoch_nanos(MAX_EPOCH_NANOS).unwrap();
    cache.store(last, 0);
    assert_eq!(cache.get_now(0), CacheReading::Now(last));
    assert_eq!(cache.get_now(1), CacheReading::ResyncDue);
    assert_eq!(cache.extrapolate(1), None);
}

#[test]
fn successful_resync_replaces_the_estimate() {
    let mut cache = ClockCache::new();
    cache.store(at_millis(1_000), 0);
    let estimate = TimeEstimate { instant: at_millis(50_000), confidence: Confidence::High };
    let (now, basis) = cache.resync(&estimate, 46_000 * MS);
    assert_eq!(now, at_millis(50_000));
    assert_eq!(basis, TimeBasis::Synchronized);
    assert_eq!(cache.estimate(), Some(ClockEstimate::new(at_millis(50_000), 46_000 * MS)));
}

#[test]
fn failed_resync_keeps_serving_the_stale_estimate() {
    let mut cache = ClockCache::new();
    cache.store(at_millis(1_000), 0);
    let fallback = TimeEstimate { instant: at_millis(999_999), confidence: Confidence::Low };
    let (now, basis) = cache.resync(&fallback, 46_000 * MS);
    assert_eq!(now, at_millis(47_000));
    assert_eq!(basis, TimeBasis::StaleEstimate);
    assert_eq!(cache.estimate(), Some(ClockEstimate::new(at_millis(1_000), 0)));
    assert_eq!(cache.get_now(46_001 * MS), CacheReading::ResyncDue);
}

#[test]
fn failed_resync_of_an_empty_cache_serves_the_system_clock() {
    let mut cache = ClockCache::new();
    let fallback = TimeEstimate { instant: at_millis(123_456), confidence: Confidence::Low };
    let (now, basis) = cache.resync(&fallback, 10);
    assert_eq!(now, at_millis(123_456));
    assert_eq!(basis, TimeBasis::SystemClock);
    assert!(!cache.has_estimate());
    assert_eq!(cache.get_now(11), CacheReading::ResyncDue);
}
