use ibc_client_validation::time::{Duration, Timestamp, MAX_SECONDS, MIN_SECONDS, NANOS_PER_SECOND};

#[test]
fn timestamps_span_the_years_1_to_9999() {
    assert_eq!(MIN_SECONDS, -62_135_596_800);
    assert_eq!(MAX_SECONDS, 253_402_300_799);
    assert!(Timestamp::from_unix_timestamp(MIN_SECONDS, 0).is_some());
    assert!(Timestamp::from_unix_timestamp(MIN_SECONDS - 1, 0).is_none());
    assert!(Timestamp::from_unix_timestamp(MAX_SECONDS, 999_999_999).is_some());
    assert!(Timestamp::from_unix_timestamp(MAX_SECONDS + 1, 0).is_none());
    assert!(Timestamp::from_unix_timestamp(0, NANOS_PER_SECOND).is_none());
    assert!(Timestamp::from_unix_timestamp(i64::MAX, 0).is_none());
    assert!(Timestamp::from_unix_timestamp(i64::MIN, 0).is_none());
}

#[test]
fn timestamp_keeps_its_parts() {
    let time = Timestamp::from_unix_timestamp(-5, 250).unwrap();
    assert_eq!(time.seconds(), -5);
    assert_eq!(time.nanos(), 250);
}

#[test]
fn the_library_accepts_the_instants_that_tendermint_accepts() {
    for (seconds, nanos) in [
        (0, 0),
        (MIN_SECONDS, 0),
        (MIN_SECONDS - 1, 999_999_999),
        (MAX_SECONDS, 999_999_999),
        (MAX_SECONDS + 1, 0),
        (1_700_000_000, 1_000_000_000),
    ] {
        assert_eq!(
            Timestamp::from_unix_timestamp(seconds, nanos).is_some(),
            tendermint::Time::from_unix_timestamp(seconds, nanos).is_ok(),
            "{} {}",
            seconds,
            nanos
        );
    }
}

#[test]
fn duration_since_subtracts_with_borrow() {
    let earlier = Timestamp::from_unix_timestamp(10, 900_000_000).unwrap();
    let later = Timestamp::from_unix_timestamp(12, 100_000_000).unwrap();
    let elapsed = later.duration_since(&earlier).unwrap();
    assert_eq!(elapsed.seconds(), 1);
    assert_eq!(elapsed.nanos(), 200_000_000);
    assert_eq!(later.duration_since(&later), Some(Duration::from_secs(0)));
    assert_eq!(earlier.duration_since(&later), None);
}

#[test]
fn duration_since_crosses_the_epoch() {
    let before = Timestamp::from_unix_timestamp(-1, 500_000_000).unwrap();
    let after = Timestamp::from_unix_timestamp(1, 0).unwrap();
    assert_eq!(after.duration_since(&before), Duration::new(1, 500_000_000));
    assert_eq!(before.duration_since(&after), None);
}

#[test]
fn duration_since_agrees_with_tendermint() {
    let pairs = [
        ((1_700_000_600, 0), (1_700_000_000, 0)),
        ((5, 1), (4, 999_999_999)),
        ((MAX_SECONDS, 999_999_999), (MIN_SECONDS, 0)),
        ((0, 0), (0, 1)),
    ];
    for ((s1, n1), (s2, n2)) in pairs {
        let ours = Timestamp::from_unix_timestamp(s1, n1)
            .unwrap()
            .duration_since(&Timestamp::from_unix_timestamp(s2, n2).unwrap());
        let theirs = tendermint::Time::from_unix_timestamp(s1, n1)
            .unwrap()
            .duration_since(tendermint::Time::from_unix_timestamp(s2, n2).unwrap())
            .ok();
        assert_eq!(ours.map(|d| (d.seconds(), d.nanos())), theirs.map(|d| (d.as_secs(), d.subsec_nanos())));
    }
}

#[test]
fn the_longest_span_between_two_timestamps() {
    let first = Timestamp::from_unix_timestamp(MIN_SECONDS, 0).unwrap();
    let last = Timestamp::from_unix_timestamp(MAX_SECONDS, 999_999_999).unwrap();
    assert_eq!(last.duration_since(&first), Duration::new(315_537_897_599, 999_999_999));
}

#[test]
fn duration_needs_less_than_a_second_of_nanoseconds() {
    assert!(Duration::new(0, 999_999_999).is_some());
    assert!(Duration::new(0, 1_000_000_000).is_none());
    assert!(Duration::new(u64::MAX, 0).is_some());
    let span = Duration::new(3, 7).unwrap();
    assert_eq!(span.seconds(), 3);
    assert_eq!(span.nanos(), 7);
    assert_eq!(Duration::from_secs(9), Duration::new(9, 0).unwrap());
}

#[test]
fn exceeds_compares_seconds_then_nanoseconds() {
    let short = Duration::new(5, 999_999_999).unwrap();
    let long = Duration::new(6, 0).unwrap();
    assert!(long.exceeds(&short));
    assert!(!short.exceeds(&long));
    assert!(!long.exceeds(&long));
    assert!(Duration::new(6, 1).unwrap().exceeds(&long));
}
