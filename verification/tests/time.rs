use chrono::{DateTime, Duration, Utc};
use control_system::time::{
    format_relative, format_relative_at, relative_label, Timestamp, MAX_SECS, MIN_SECS,
};

fn stamp(at: DateTime<Utc>) -> Timestamp {
    Timestamp::new(at.timestamp(), at.timestamp_subsec_nanos()).unwrap()
}

#[test]
fn test_format_relative() {
    let now = Utc::now();

    assert_eq!(format_relative(stamp(now)), "just now");
    assert_eq!(format_relative(stamp(now - Duration::seconds(30))), "30s ago");
    assert_eq!(format_relative(stamp(now - Duration::minutes(5))), "5 mins ago");
    assert_eq!(format_relative(stamp(now - Duration::hours(2))), "2 hours ago");
    assert_eq!(format_relative(stamp(now - Duration::days(1))), "yesterday");
    assert_eq!(format_relative(stamp(now - Duration::days(3))), "3 days ago");
}

#[test]
fn relative_label_words_every_unit() {
    assert_eq!(relative_label(-1), "in the future");
    assert_eq!(relative_label(i64::MIN), "in the future");
    assert_eq!(relative_label(0), "just now");
    assert_eq!(relative_label(1), "just now");
    assert_eq!(relative_label(2), "2s ago");
    assert_eq!(relative_label(59), "59s ago");
    assert_eq!(relative_label(60), "1 min ago");
    assert_eq!(relative_label(119), "1 min ago");
    assert_eq!(relative_label(120), "2 mins ago");
    assert_eq!(relative_label(3599), "59 mins ago");
    assert_eq!(relative_label(3600), "1 hour ago");
    assert_eq!(relative_label(7200), "2 hours ago");
    assert_eq!(relative_label(86_399), "23 hours ago");
    assert_eq!(relative_label(86_400), "yesterday");
    assert_eq!(relative_label(2 * 86_400), "2 days ago");
    assert_eq!(relative_label(6 * 86_400), "6 days ago");
    assert_eq!(relative_label(7 * 86_400), "1 week ago");
    assert_eq!(relative_label(14 * 86_400), "2 weeks ago");
    assert_eq!(relative_label(27 * 86_400), "3 weeks ago");
    assert_eq!(relative_label(28 * 86_400), "0 months ago");
    assert_eq!(relative_label(30 * 86_400), "1 month ago");
    assert_eq!(relative_label(60 * 86_400), "2 months ago");
    assert_eq!(relative_label(359 * 86_400), "11 months ago");
    assert_eq!(relative_label(360 * 86_400), "0 years ago");
    assert_eq!(relative_label(365 * 86_400), "1 year ago");
    assert_eq!(relative_label(730 * 86_400), "2 years ago");
    assert_eq!(relative_label(i64::MAX), "292471208677 years ago");
}

#[test]
fn format_relative_at_counts_whole_seconds_as_chrono_does() {
    let now = Timestamp::new(1_700_000_000, 500_000_000).unwrap();
    let then = Timestamp::new(1_699_999_970, 0).unwrap();
    assert_eq!(now.seconds_since(&then), 30);
    assert_eq!(then.seconds_since(&now), -30);
    assert_eq!(format_relative_at(then, now), "30s ago");
    assert_eq!(format_relative_at(now, then), "in the future");
    let a_bit_later = Timestamp::new(1_700_000_000, 900_000_000).unwrap();
    assert_eq!(now.seconds_since(&a_bit_later), 0);
    assert_eq!(format_relative_at(a_bit_later, now), "just now");
    let a = DateTime::from_timestamp(1_700_000_000, 500_000_000).unwrap();
    let b = DateTime::from_timestamp(1_600_000_123, 750_000_000).unwrap();
    assert_eq!(
        stamp(a).seconds_since(&stamp(b)),
        a.signed_duration_since(b).num_seconds()
    );
}

#[test]
fn timestamps_are_the_instants_that_chrono_holds() {
    let cases: [(i64, u32); 14] = [
        (0, 0),
        (1_700_000_000, 999_999_999),
        (1_700_000_000, 1_000_000_000),
        (1_700_000_039, 1_000_000_000),
        (1_700_000_039, 1_999_999_999),
        (1_700_000_039, 2_000_000_000),
        (-1, 1_500_000_000),
        (-2, 1_500_000_000),
        (MIN_SECS, 0),
        (MIN_SECS - 1, 0),
        (MAX_SECS, 0),
        (MAX_SECS, 1_999_999_999),
        (MAX_SECS + 1, 0),
        (i64::MAX, 0),
    ];
    for (secs, nanos) in cases {
        let ours = Timestamp::new(secs, nanos);
        let theirs = DateTime::from_timestamp(secs, nanos);
        assert_eq!(ours.is_some(), theirs.is_some(), "{} {}", secs, nanos);
        if let (Some(ours), Some(theirs)) = (ours, theirs) {
            assert_eq!(ours.secs(), theirs.timestamp());
            assert_eq!(ours.nanos(), theirs.timestamp_subsec_nanos());
        }
    }
    assert_eq!(MIN_SECS, DateTime::<Utc>::MIN_UTC.timestamp());
    assert_eq!(MAX_SECS, DateTime::<Utc>::MAX_UTC.timestamp());
}

#[test]
fn timestamps_are_ordered_as_chrono_orders_them() {
    let points: [(i64, u32); 5] = [
        (1_700_000_039, 0),
        (1_700_000_039, 999_999_999),
        (1_700_000_039, 1_200_000_000),
        (1_700_000_040, 0),
        (-5, 3),
    ];
    for (s1, n1) in points {
        for (s2, n2) in points {
            let a = Timestamp::new(s1, n1).unwrap();
            let b = Timestamp::new(s2, n2).unwrap();
            let x = DateTime::from_timestamp(s1, n1).unwrap();
            let y = DateTime::from_timestamp(s2, n2).unwrap();
            assert_eq!(a.is_before(&b), x < y);
            assert_eq!(a == b, x == y);
        }
    }
}

#[test]
fn parse_rfc3339_reads_what_chrono_reads() {
    assert_eq!(
        Timestamp::parse_rfc3339("2024-05-01T12:00:00Z"),
        Timestamp::new(1_714_564_800, 0)
    );
    assert_eq!(
        Timestamp::parse_rfc3339("2024-05-01T14:00:00.5+02:00"),
        Timestamp::new(1_714_564_800, 500_000_000)
    );
    assert_eq!(Timestamp::parse_rfc3339("2024-05-01"), None);
    assert_eq!(Timestamp::parse_rfc3339(""), None);
    assert_eq!(Timestamp::parse_rfc3339("2024-05-01 12:00:00"), None);
}

#[test]
fn now_is_now() {
    let before = Utc::now().timestamp();
    let now = Timestamp::now();
    let after = Utc::now().timestamp();
    assert!(before <= now.secs() && now.secs() <= after);
}

#[test]
fn outside_leap_seconds_the_seconds_between_are_counted_towards_zero() {
    let mut seed: u64 = 0x9E37_79B9_7F4A_7C15;
    let mut next = move || {
        seed ^= seed << 13;
        seed ^= seed >> 7;
        seed ^= seed << 17;
        seed
    };
    let span = (MAX_SECS - MIN_SECS) as u64;
    for round in 0..20_000 {
        let s1 = MIN_SECS + (next() % span) as i64;
        // Every other pair lies within two seconds of each other.
        let s2 = if round % 2 == 0 {
            (s1 + (next() % 5) as i64 - 2).clamp(MIN_SECS, MAX_SECS)
        } else {
            MIN_SECS + (next() % span) as i64
        };
        let n1 = (next() % 1_000_000_000) as u32;
        let n2 = (next() % 1_000_000_000) as u32;
        let later = Timestamp::new(s1, n1).unwrap();
        let earlier = Timestamp::new(s2, n2).unwrap();
        let nanos = (s1 as i128 - s2 as i128) * 1_000_000_000 + n1 as i128 - n2 as i128;
        // Division of integers drops the fraction towards zero.
        let expected = (nanos / 1_000_000_000) as i64;
        assert_eq!(later.seconds_since(&earlier), expected, "{} {} {} {}", s1, n1, s2, n2);
    }
    let just_before = Timestamp::new(10, 999_999_999).unwrap();
    let just_after = Timestamp::new(11, 0).unwrap();
    assert_eq!(just_after.seconds_since(&just_before), 0);
    assert_eq!(just_before.seconds_since(&just_after), 0);
    assert_eq!(Timestamp::new(12, 0).unwrap().seconds_since(&just_before), 1);
    assert_eq!(just_before.seconds_since(&Timestamp::new(12, 0).unwrap()), -1);
    assert_eq!(
        Timestamp::new(MAX_SECS, 999_999_999)
            .unwrap()
            .seconds_since(&Timestamp::new(MIN_SECS, 0).unwrap()),
        MAX_SECS - MIN_SECS
    );
}
