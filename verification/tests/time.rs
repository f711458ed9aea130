use cargo_supply_chain::time::{AheadOfClock, Duration, Timestamp};

fn span(secs: u64, nanos: u32) -> Duration {
    Duration::new(secs, nanos).unwrap()
}

#[test]
fn duration_rejects_a_full_second_of_nanos() {
    assert!(Duration::new(1, 1_000_000_000).is_none());
    assert!(Duration::new(1, u32::MAX).is_none());
    assert!(Duration::new(1, 999_999_999).is_some());
    assert_eq!(Duration::new(5, 0), Some(Duration::from_secs(5)));
}

#[test]
fn a_duration_gives_back_its_parts() {
    let d = span(12, 345);
    assert_eq!(d.as_secs(), 12);
    assert_eq!(d.subsec_nanos(), 345);
    assert_eq!(Duration::from_secs(u64::MAX).as_secs(), u64::MAX);
    assert_eq!(Duration::from_secs(7).subsec_nanos(), 0);
}

#[test]
fn durations_compare_by_seconds_then_nanoseconds() {
    assert!(span(1, 999_999_999).shorter_than(&span(2, 0)));
    assert!(span(2, 0).shorter_than(&span(2, 1)));
    assert!(!span(2, 1).shorter_than(&span(2, 1)));
    assert!(!span(2, 1).shorter_than(&span(2, 0)));
    assert!(!span(3, 0).shorter_than(&span(2, 999_999_999)));
}

#[test]
fn subtraction_borrows_from_the_seconds() {
    assert_eq!(span(10, 100).checked_sub(&span(3, 200)), Some(span(6, 999_999_900)));
    assert_eq!(span(10, 200).checked_sub(&span(3, 100)), Some(span(7, 100)));
    assert_eq!(span(10, 100).checked_sub(&span(10, 100)), Some(span(0, 0)));
    assert_eq!(span(10, 100).checked_sub(&span(10, 101)), None);
    assert_eq!(span(0, 0).checked_sub(&span(0, 1)), None);
}

#[test]
fn addition_carries_into_the_seconds() {
    assert_eq!(span(1, 600_000_000).checked_add(&span(2, 500_000_000)), Some(span(4, 100_000_000)));
    assert_eq!(span(1, 1).checked_add(&span(2, 2)), Some(span(3, 3)));
    assert_eq!(span(0, 999_999_999).checked_add(&span(0, 1)), Some(span(1, 0)));
    assert_eq!(span(u64::MAX, 0).checked_add(&span(0, 999_999_999)), Some(span(u64::MAX, 999_999_999)));
    assert_eq!(span(u64::MAX, 1).checked_add(&span(0, 999_999_999)), None);
    assert_eq!(span(u64::MAX, 0).checked_add(&span(1, 0)), None);
    assert_eq!(span(u64::MAX - 1, 500_000_000).checked_add(&span(1, 500_000_000)), None);
}

#[test]
fn duration_since_borrows_from_the_seconds() {
    let later = Timestamp::from_unix(span(10, 100));
    let earlier = Timestamp::from_unix(span(3, 200));
    assert_eq!(later.duration_since(&earlier), Ok(span(6, 999_999_900)));
    assert_eq!(earlier.duration_since(&later), Err(AheadOfClock));
    assert_eq!(later.duration_since(&later), Ok(span(0, 0)));
    assert_eq!(later.since_unix(), span(10, 100));
}

#[test]
fn timestamps_move_by_durations() {
    let t = Timestamp::from_unix(span(100, 0));
    assert_eq!(t.checked_add(&span(1, 5)), Some(Timestamp::from_unix(span(101, 5))));
    assert_eq!(t.checked_sub(&span(1, 5)), Some(Timestamp::from_unix(span(98, 999_999_995))));
    assert_eq!(t.checked_sub(&span(100, 0)), Some(Timestamp::from_unix(span(0, 0))));
    assert_eq!(t.checked_sub(&span(100, 1)), None);
    assert_eq!(t.checked_add(&span(u64::MAX, 0)), None);
}

#[test]
fn the_clock_reads_a_time_after_the_epoch_and_does_not_run_backwards_far() {
    let first = Timestamp::now().expect("the clock reads a time after 1970");
    let second = Timestamp::now().expect("the clock reads a time after 1970");
    // 2020-01-01 lies behind us
    assert!(span(1_577_836_800, 0).shorter_than(&first.since_unix()));
    match second.duration_since(&first) {
        Ok(passed) => assert!(passed.shorter_than(&span(60, 0))),
        Err(_) => {}
    }
}
