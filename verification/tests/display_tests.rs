use mc_snipbot::display::{
    describe_remaining, release_countdown, ReleaseCountdown, RemainingDisplay,
};
use mc_snipbot::instant::{UtcInstant, MAX_EPOCH_NANOS, MIN_EPOCH_NANOS};

fn at_nanos(nanos: i128) -> UtcInstant {
    UtcInstant::from_epoch_nanos(nanos).unwrap()
}

#[test]
fn remaining_time_is_cut_for_display() {
    assert_eq!(describe_remaining(-5), RemainingDisplay::Firing);
    assert_eq!(describe_remaining(0), RemainingDisplay::Firing);
    assert_eq!(describe_remaining(1), RemainingDisplay::Millis(1));
    assert_eq!(describe_remaining(999), RemainingDisplay::Millis(999));
    assert_eq!(describe_remaining(1_000), RemainingDisplay::Seconds { seconds: 1, tenths: 0 });
    assert_eq!(describe_remaining(12_345), RemainingDisplay::Seconds { seconds: 12, tenths: 3 });
    assert_eq!(describe_remaining(59_999), RemainingDisplay::Seconds { seconds: 59, tenths: 9 });
    assert_eq!(describe_remaining(60_000), RemainingDisplay::Minutes { minutes: 1, seconds: 0 });
    assert_eq!(describe_remaining(754_321), RemainingDisplay::Minutes { minutes: 12, seconds: 34 });
    assert_eq!(
        describe_remaining(i64::MAX),
        RemainingDisplay::Minutes { minutes: i64::MAX / 60_000, seconds: (i64::MAX % 60_000) / 1_000 }
    );
}

#[test]
fn countdown_to_the_release() {
    let now = at_nanos(5_000_000_000);
    let ahead = |seconds: i128| at_nanos(5_000_000_000 + seconds * 1_000_000_000);
    assert_eq!(release_countdown(&now, &now), ReleaseCountdown::Past);
    assert_eq!(release_countdown(&now, &ahead(-1)), ReleaseCountdown::Past);
    assert_eq!(release_countdown(&now, &at_nanos(5_999_999_999)), ReleaseCountdown::Past);
    assert_eq!(release_countdown(&now, &ahead(1)), ReleaseCountdown::Seconds(1));
    assert_eq!(release_countdown(&now, &at_nanos(6_999_999_999)), ReleaseCountdown::Seconds(1));
    assert_eq!(release_countdown(&now, &ahead(59)), ReleaseCountdown::Seconds(59));
    assert_eq!(release_countdown(&now, &ahead(60)), ReleaseCountdown::Minutes { minutes: 1, seconds: 0 });
    assert_eq!(
        release_countdown(&now, &ahead(3_599)),
        ReleaseCountdown::Minutes { minutes: 59, seconds: 59 }
    );
    assert_eq!(
        release_countdown(&now, &ahead(3_600)),
        ReleaseCountdown::Hours { hours: 1, minutes: 0, seconds: 0 }
    );
    assert_eq!(
        release_countdown(&now, &ahead(93_784)),
        ReleaseCountdown::Hours { hours: 26, minutes: 3, seconds: 4 }
    );
}

#[test]
fn countdown_over_the_whole_range() {
    let first = at_nanos(MIN_EPOCH_NANOS);
    let last = at_nanos(MAX_EPOCH_NANOS);
    assert_eq!(release_countdown(&last, &first), ReleaseCountdown::Past);
    let seconds: i64 = 8_210_266_876_799 + 8_334_601_228_800;
    assert_eq!(
        release_countdown(&first, &last),
        ReleaseCountdown::Hours {
            hours: seconds / 3_600,
            minutes: (seconds / 60) % 60,
            seconds: seconds % 60,
        }
    );
}
