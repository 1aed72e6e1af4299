use date_sieve::bucket::DateBucket;
use date_sieve::sieve::DateSieve;
use date_sieve::time::{Resolution, Timestamp};

/// 2024-01-10 12:00:00 UTC, a Wednesday.
const T: i64 = 1_704_888_000;
const MINUTE: i64 = 60;
const HOUR: i64 = 3_600;
const DAY: i64 = 86_400;

fn at(secs: i64) -> Timestamp {
    Timestamp::from_unix(secs).unwrap()
}

#[test]
fn from_unix_keeps_the_seconds() {
    assert_eq!(at(T).unix_seconds(), T);
    assert_eq!(at(0).unix_seconds(), 0);
    assert_eq!(at(-1).unix_seconds(), -1);
}

#[test]
fn from_unix_rejects_instants_off_the_calendar() {
    assert!(Timestamp::from_unix(i64::MAX).is_none());
    assert!(Timestamp::from_unix(i64::MIN).is_none());
}

#[test]
fn slot_keys_follow_the_calendar() {
    let t = at(T + 5);
    assert_eq!(t.slot_key(Resolution::Second), "2024-01-10 12:00:05");
    assert_eq!(t.slot_key(Resolution::Minute), "2024-01-10 12:00");
    assert_eq!(t.slot_key(Resolution::Hour), "2024-01-10 12");
    assert_eq!(t.slot_key(Resolution::Day), "2024-01-10");
    assert_eq!(t.slot_key(Resolution::Week), "2024 02");
    assert_eq!(t.slot_key(Resolution::Month), "2024-01");
    assert_eq!(t.slot_key(Resolution::Year), "2024");
    assert_eq!(at(0).slot_key(Resolution::Day), "1970-01-01");
}

#[test]
fn week_slots_split_at_the_new_year() {
    // 2023-12-31 is a Sunday and 2024-01-01 a Monday.
    let sunday = at(T - 10 * DAY);
    let monday = at(T - 9 * DAY);
    assert_eq!(sunday.slot_key(Resolution::Week), "2023 52");
    assert_eq!(monday.slot_key(Resolution::Week), "2024 01");
    let mut weeks = DateBucket::new(Resolution::Week, 5);
    assert!(weeks.offer(sunday));
    assert!(weeks.offer(monday));
    assert_eq!(weeks.len(), 2);
}

#[test]
fn patterns_of_each_resolution() {
    assert_eq!(Resolution::Second.pattern(), "%Y-%m-%d %H:%M:%S");
    assert_eq!(Resolution::Week.pattern(), "%Y %W");
    assert_eq!(Resolution::Year.pattern(), "%Y");
}

#[test]
fn bucket_never_exceeds_its_capacity() {
    let mut hours = DateBucket::new(Resolution::Hour, 3);
    let mut accepted = 0;
    for i in 0..10 {
        if hours.offer(at(T + i * HOUR)) {
            accepted += 1;
        }
        assert!(hours.len() <= 3);
    }
    assert_eq!(accepted, 3);
    assert_eq!(hours.len(), 3);
    assert!(!hours.is_open());
}

#[test]
fn bucket_counts_a_repeated_timestamp_once() {
    let mut days = DateBucket::new(Resolution::Day, 3);
    assert!(days.offer(at(T)));
    assert!(!days.offer(at(T)));
    assert_eq!(days.len(), 1);
    // another instant of the same day is the same slot
    assert!(!days.offer(at(T + HOUR)));
    assert_eq!(days.len(), 1);
    assert!(days.has_slot_of(at(T + 2 * HOUR)));
    assert!(!days.has_slot_of(at(T + DAY)));
}

#[test]
fn saturated_bucket_rejects_everything() {
    let mut hours = DateBucket::new(Resolution::Hour, 2);
    assert!(hours.offer(at(T)));
    assert!(hours.offer(at(T + HOUR)));
    assert!(!hours.is_open());
    for secs in [T + 2 * HOUR, T, T - DAY, T + 1_000_000, 0] {
        assert!(!hours.offer(at(secs)));
        assert_eq!(hours.len(), 2);
    }
}

#[test]
fn zero_capacity_bucket_never_accepts() {
    let mut years = DateBucket::new(Resolution::Year, 0);
    assert_eq!(years.capacity(), 0);
    assert_eq!(years.resolution(), Resolution::Year);
    assert!(!years.is_open());
    for secs in [T, 0, -DAY, T + 400 * DAY] {
        assert!(!years.offer(at(secs)));
        assert_eq!(years.len(), 0);
    }
}

#[test]
fn capacity_one_bucket_keeps_whichever_comes_first() {
    let a = at(T);
    let b = at(T + DAY);
    let mut first = DateBucket::new(Resolution::Day, 1);
    assert!(first.offer(a));
    assert!(!first.offer(b));
    assert!(first.has_slot_of(a));
    let mut second = DateBucket::new(Resolution::Day, 1);
    assert!(second.offer(b));
    assert!(!second.offer(a));
    assert!(second.has_slot_of(b));
}

#[test]
fn sieve_accepts_a_timestamp_new_only_to_the_week_tier() {
    let mut sieve = DateSieve::new(1, 1, 1, 1, 2, 1, 1);
    assert!(sieve.offer(at(T)));
    // Monday 2024-01-15: same month and year, every fine tier is full, a new week.
    assert!(sieve.offer(at(T + 5 * DAY)));
    assert_eq!(sieve.bucket(Resolution::Week).len(), 2);
    for r in [
        Resolution::Second,
        Resolution::Minute,
        Resolution::Hour,
        Resolution::Day,
        Resolution::Month,
        Resolution::Year,
    ] {
        assert_eq!(sieve.bucket(r).len(), 1);
    }
    // a third week finds the week tier full as well
    assert!(!sieve.offer(at(T + 12 * DAY)));
}

#[test]
fn sieve_rejects_when_no_tier_accepts() {
    let mut sieve = DateSieve::new(0, 0, 0, 0, 0, 0, 0);
    assert!(!sieve.offer(at(T)));
    assert!(!sieve.offer(at(0)));
    let mut sieve = DateSieve::new(1, 1, 1, 1, 1, 1, 1);
    assert!(sieve.offer(at(T)));
    assert!(!sieve.offer(at(T)));
    assert!(!sieve.offer(at(T + 2 * DAY)));
}

#[test]
fn sieve_concrete_scenario() {
    let mut sieve = DateSieve::new(2, 5, 2, 3, 2, 4, 2);
    let answers: Vec<bool> = (1..=3).map(|s| sieve.offer(at(T + s))).collect();
    assert_eq!(answers, vec![true, true, false]);
    let expected = [
        (Resolution::Second, 2, 2, false),
        (Resolution::Minute, 5, 1, true),
        (Resolution::Hour, 2, 1, true),
        (Resolution::Day, 3, 1, true),
        (Resolution::Week, 2, 1, true),
        (Resolution::Month, 4, 1, true),
        (Resolution::Year, 2, 1, true),
    ];
    for (r, capacity, len, open) in expected {
        let b = sieve.bucket(r);
        assert_eq!(b.resolution(), r);
        assert_eq!(b.capacity(), capacity);
        assert_eq!(b.len(), len);
        assert_eq!(b.is_open(), open);
    }
    // the next minute is still kept, by the minute tier
    assert!(sieve.offer(at(T + MINUTE)));
    assert_eq!(sieve.bucket(Resolution::Minute).len(), 2);
    assert_eq!(sieve.bucket(Resolution::Second).len(), 2);
}

#[test]
fn sieve_fills_each_tier_in_turn() {
    let mut sieve = DateSieve::new(2, 5, 2, 3, 2, 4, 2);
    let mut kept = 0;
    for step in [1, MINUTE, HOUR, DAY, 7 * DAY] {
        let mut k: i64 = 1;
        while sieve.offer(at(T + k * step)) {
            kept += 1;
            k += 1;
        }
    }
    // 2 seconds, then 4 more minutes, 1 more hour, 2 more days and 1 more week
    assert_eq!(kept, 10);
    assert!(!sieve.offer(at(T + 1)));
}
