use mempool_admission::time::NANOS_PER_SEC;
use mempool_admission::{TimeSpan, Timestamp};

#[test]
fn a_second_is_a_thousand_million_nanoseconds() {
    assert_eq!(NANOS_PER_SEC, 1_000_000_000);
    assert_eq!(TimeSpan::from_secs(1).nanos, 1_000_000_000);
    assert_eq!(Timestamp::from_secs(1).nanos, 1_000_000_000);
}

#[test]
fn from_secs_counts_exactly() {
    assert_eq!(TimeSpan::from_secs(0).nanos, 0);
    assert_eq!(TimeSpan::from_secs(10_000_000).nanos, 10_000_000_000_000_000);
    assert_eq!(TimeSpan::from_secs(u64::MAX).nanos, 18_446_744_073_709_551_615_000_000_000);
    assert_eq!(Timestamp::from_secs(1_700_000_000).nanos, 1_700_000_000_000_000_000);
    assert_eq!(Timestamp::from_secs(u64::MAX).nanos, 18_446_744_073_709_551_615_000_000_000);
}

#[test]
fn the_longest_span_is_the_largest_number() {
    assert_eq!(TimeSpan::longest().nanos, u128::MAX);
}

#[test]
fn earlier_by_steps_back() {
    let now = Timestamp { nanos: 1_000 };
    assert_eq!(now.earlier_by(TimeSpan { nanos: 0 }), Timestamp { nanos: 1_000 });
    assert_eq!(now.earlier_by(TimeSpan { nanos: 1 }), Timestamp { nanos: 999 });
    assert_eq!(now.earlier_by(TimeSpan { nanos: 1_000 }), Timestamp { nanos: 0 });
}

#[test]
fn earlier_by_stops_at_the_epoch() {
    let now = Timestamp { nanos: 1_000 };
    assert_eq!(now.earlier_by(TimeSpan { nanos: 1_001 }), Timestamp { nanos: 0 });
    assert_eq!(now.earlier_by(TimeSpan::longest()), Timestamp { nanos: 0 });
    assert_eq!(Timestamp { nanos: 0 }.earlier_by(TimeSpan { nanos: 1 }), Timestamp { nanos: 0 });
    assert_eq!(Timestamp { nanos: u128::MAX }.earlier_by(TimeSpan::longest()), Timestamp { nanos: 0 });
}

#[test]
fn is_before_is_strict() {
    let a = Timestamp { nanos: 5 };
    let b = Timestamp { nanos: 6 };
    assert!(a.is_before(b));
    assert!(!b.is_before(a));
    assert!(!a.is_before(a));
}

#[test]
fn a_reading_after_the_epoch_is_kept() {
    assert_eq!(Timestamp::from_unix_nanos(Some(0)), Timestamp { nanos: 0 });
    assert_eq!(Timestamp::from_unix_nanos(Some(1)), Timestamp { nanos: 1 });
    assert_eq!(
        Timestamp::from_unix_nanos(Some(1_700_000_000_123_456_789)),
        Timestamp { nanos: 1_700_000_000_123_456_789 }
    );
    assert_eq!(Timestamp::from_unix_nanos(Some(u128::MAX)), Timestamp { nanos: u128::MAX });
}

#[test]
fn a_reading_before_the_epoch_counts_as_the_epoch() {
    assert_eq!(Timestamp::from_unix_nanos(None), Timestamp { nanos: 0 });
}
