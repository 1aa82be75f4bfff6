use chrono::{DateTime, Utc};
use turbopump::time::{Timestamp, MAX_SECS, MIN_SECS};

#[test]
fn representable_range_matches_chrono() {
    assert_eq!(MAX_SECS, DateTime::<Utc>::MAX_UTC.timestamp());
    assert_eq!(MIN_SECS, DateTime::<Utc>::MIN_UTC.timestamp());
}

#[test]
fn now_follows_the_system_clock() {
    let before = Utc::now().timestamp();
    let now = Timestamp::now();
    let after = Utc::now().timestamp();
    assert!(before <= now.secs && now.secs <= after);
    assert!(now.nanos < 1_000_000_000);
}

#[test]
fn adding_seconds_keeps_the_nanoseconds() {
    let t = Timestamp { secs: 1_700_000_000, nanos: 123_456_789 };
    assert_eq!(Timestamp { secs: 1_700_003_600, nanos: 123_456_789 }, t.after_secs(3600));
    assert_eq!(Timestamp { secs: 1_699_999_999, nanos: 123_456_789 }, t.after_secs(-1));
}

#[test]
fn adding_past_the_range_gives_the_start() {
    let t = Timestamp { secs: MAX_SECS, nanos: 0 };
    assert_eq!(t, t.after_secs(1));
    let u = Timestamp { secs: MIN_SECS, nanos: 5 };
    assert_eq!(u, u.after_secs(-1));
    assert_eq!(Timestamp { secs: MIN_SECS + 1, nanos: 5 }, u.after_secs(1));
}

#[test]
fn instants_order_by_seconds_then_nanoseconds() {
    let a = Timestamp { secs: 1, nanos: 999_999_999 };
    let b = Timestamp { secs: 2, nanos: 0 };
    assert!(a.before(&b));
    assert!(!b.before(&a));
    assert!(!a.before(&a));
    assert!(Timestamp { secs: 2, nanos: 1 }.before(&Timestamp { secs: 2, nanos: 2 }));
}
