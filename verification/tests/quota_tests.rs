use brain_dump::quota::{load_status, CheckResult, QuotaStatus, DAILY_LIMIT, WARN_THRESHOLD};

#[test]
fn test_default_is_today_zero() {
    let q = QuotaStatus::default();
    assert_eq!(q.used, 0);
    assert_eq!(q.limit, DAILY_LIMIT);
    assert!(!q.warned);
}

#[test]
fn test_increment_and_load() {
    let mut status = QuotaStatus::fresh("2026-04-25".to_string());
    match status.register_request() {
        CheckResult::Allowed => {}
        _ => panic!("first call should be Ok"),
    }
    assert_eq!(status.used, 1);
}

#[test]
fn test_blocked_at_limit() {
    let mut status = QuotaStatus::fresh("2026-04-25".to_string());
    status.used = DAILY_LIMIT;
    match status.register_request() {
        CheckResult::Blocked(_) => {}
        _ => panic!("should be blocked at limit"),
    }
}

#[test]
fn default_is_dated_like_an_iso_day() {
    let q = QuotaStatus::default();
    let chars: Vec<char> = q.date.chars().collect();
    assert_eq!(chars.len(), 10);
    assert_eq!(chars[4], '-');
    assert_eq!(chars[7], '-');
}

#[test]
fn blocked_request_leaves_counter_unchanged() {
    let mut status = QuotaStatus::fresh("2026-04-25".to_string());
    status.used = DAILY_LIMIT;
    status.warned = true;
    let before = status.clone();
    match status.register_request() {
        CheckResult::Blocked(s) => assert_eq!(s, before),
        _ => panic!("should be blocked"),
    }
    assert_eq!(status, before);
}

#[test]
fn daily_schedule_warns_once_then_blocks() {
    let mut status = QuotaStatus::fresh("2026-04-25".to_string());
    let mut warnings = 0;
    for n in 1..=DAILY_LIMIT {
        match status.register_request() {
            CheckResult::Allowed => assert_ne!(n, WARN_THRESHOLD),
            CheckResult::WarnCrossed(s) => {
                assert_eq!(n, WARN_THRESHOLD);
                assert_eq!(s.used, WARN_THRESHOLD);
                assert!(s.warned);
                warnings += 1;
            }
            CheckResult::Blocked(_) => panic!("blocked before the limit at request {}", n),
        }
        assert_eq!(status.used, n);
    }
    assert_eq!(warnings, 1);
    for _ in 0..3 {
        match status.register_request() {
            CheckResult::Blocked(s) => assert_eq!(s.used, DAILY_LIMIT),
            _ => panic!("should be blocked past the limit"),
        }
    }
    assert_eq!(status.used, DAILY_LIMIT);
}

#[test]
fn warning_counter_is_returned_and_kept() {
    let mut status = QuotaStatus::fresh("2026-04-25".to_string());
    status.used = WARN_THRESHOLD - 1;
    match status.register_request() {
        CheckResult::WarnCrossed(s) => {
            assert_eq!(s.used, WARN_THRESHOLD);
            assert!(s.warned);
            assert_eq!(s.date, "2026-04-25");
            assert_eq!(s, status);
        }
        _ => panic!("should warn"),
    }
}

#[test]
fn already_warned_counter_is_not_warned_again() {
    let mut status = QuotaStatus::fresh("2026-04-25".to_string());
    status.used = 1700;
    status.warned = true;
    assert!(matches!(status.register_request(), CheckResult::Allowed));
    assert_eq!(status.used, 1701);
}

#[test]
fn counter_of_another_day_is_reset() {
    let mut old = QuotaStatus::fresh("2000-01-01".to_string());
    old.used = 1800;
    old.warned = true;
    let today = "2099-12-31".to_string();
    let now = old.rolled_over(&today);
    assert_eq!(now.date, "2099-12-31");
    assert_eq!(now.used, 0);
    assert!(!now.warned);
    assert_eq!(now.limit, DAILY_LIMIT);
}

#[test]
fn counter_of_today_is_kept() {
    let mut s = QuotaStatus::fresh("2026-04-25".to_string());
    s.used = 42;
    let kept = s.clone().rolled_over(&"2026-04-25".to_string());
    assert_eq!(kept, s);
}

#[test]
fn nothing_stored_gives_fresh_counter() {
    let q = load_status(None);
    assert_eq!(q.used, 0);
    assert_eq!(q.limit, DAILY_LIMIT);
    assert!(!q.warned);
}

#[test]
fn stored_counter_of_today_is_loaded() {
    let mut today = QuotaStatus::default();
    today.used = 12;
    let loaded = load_status(Some(today.clone()));
    // Equal unless the day changed between the two readings of the clock.
    if loaded.date == today.date {
        assert_eq!(loaded, today);
    }
}

#[test]
fn stored_counter_of_another_day_is_dropped() {
    let mut old = QuotaStatus::fresh("1999-01-01".to_string());
    old.used = 1999;
    let loaded = load_status(Some(old));
    assert_eq!(loaded.date, QuotaStatus::default().date);
    assert_eq!(loaded.used, 0);
    assert!(!loaded.warned);
}

#[test]
fn only_blocked_answers_are_blocked() {
    assert!(CheckResult::Blocked(QuotaStatus::fresh("d".to_string())).is_blocked());
    assert!(!CheckResult::WarnCrossed(QuotaStatus::fresh("d".to_string())).is_blocked());
    assert!(!CheckResult::Allowed.is_blocked());
}

#[test]
fn requests_from_a_stored_counter() {
    let mut status = QuotaStatus::fresh("2026-04-25".to_string());
    status.used = 1498;
    let mut warnings = 0;
    let mut blocked = false;
    for _ in 0..600 {
        match status.register_request() {
            CheckResult::WarnCrossed(_) => warnings += 1,
            CheckResult::Blocked(_) => blocked = true,
            CheckResult::Allowed => assert!(!blocked),
        }
        assert!(status.used <= DAILY_LIMIT);
    }
    assert_eq!(warnings, 1);
    assert!(blocked);
}

#[test]
fn counter_above_limit_stays_put() {
    let mut status = QuotaStatus::fresh("2026-04-25".to_string());
    status.used = 2500;
    assert!(status.register_request().is_blocked());
    assert_eq!(status.used, 2500);
}

#[test]
fn stored_counter_with_a_broken_date_is_reset() {
    let mut broken = QuotaStatus::fresh("not a day".to_string());
    broken.used = 1999;
    broken.warned = true;
    let loaded = load_status(Some(broken));
    assert_eq!(loaded.used, 0);
    assert!(!loaded.warned);
    assert_eq!(loaded.date.chars().count(), 10);
}
