use luna::engine::guard::{ExecGuard, LimitExceeded, CHECK_INTERVAL};

const I: u64 = CHECK_INTERVAL as u64;

#[test]
fn no_limits_means_no_guard() {
    assert!(ExecGuard::for_limits(None, None).is_none());
    assert!(ExecGuard::for_limits(Some(1), None).is_some());
    assert!(ExecGuard::for_limits(None, Some(1)).is_some());
}

#[test]
fn instruction_budget_stops_at_the_limit() {
    // limit of 3.5 intervals: the fourth check reaches it
    let mut g = ExecGuard::for_limits(Some(3 * I + I / 2), None).unwrap();
    g.reset(0);
    assert_eq!(g.check(0), Ok(()));
    assert_eq!(g.check(0), Ok(()));
    assert_eq!(g.check(0), Ok(()));
    assert_eq!(g.check(0), Err(LimitExceeded::Instructions { limit: 3 * I + I / 2 }));
    assert_eq!(g.executed(), 4 * I);
}

#[test]
fn instruction_budget_exact_multiple() {
    let mut g = ExecGuard::for_limits(Some(2 * I), None).unwrap();
    g.reset(5);
    assert_eq!(g.check(5), Ok(()));
    assert_eq!(g.check(5), Err(LimitExceeded::Instructions { limit: 2 * I }));
}

#[test]
fn reset_restores_the_budget() {
    let mut g = ExecGuard::for_limits(Some(I), None).unwrap();
    g.reset(0);
    assert!(g.check(0).is_err());
    g.reset(0);
    assert_eq!(g.executed(), 0);
    assert!(g.check(0).is_err());
    let mut h = ExecGuard::for_limits(Some(2 * I), None).unwrap();
    h.reset(0);
    assert!(h.check(0).is_ok());
    h.reset(0);
    assert!(h.check(0).is_ok());
}

#[test]
fn deadline_is_set_by_reset() {
    let mut g = ExecGuard::for_limits(None, Some(100)).unwrap();
    // before the first reset there is no deadline
    assert_eq!(g.check(1_000_000), Ok(()));
    g.reset(50);
    assert_eq!(g.check(149), Ok(()));
    assert_eq!(g.check(150), Err(LimitExceeded::Timeout));
    assert_eq!(g.check(10_000), Err(LimitExceeded::Timeout));
    assert_eq!(g.executed(), 0);
}

#[test]
fn instruction_limit_is_tested_before_the_deadline() {
    let mut g = ExecGuard::for_limits(Some(I), Some(10)).unwrap();
    g.reset(0);
    assert_eq!(g.check(100), Err(LimitExceeded::Instructions { limit: I }));
}

#[test]
fn limit_messages() {
    assert_eq!(
        LimitExceeded::Instructions { limit: 12345 }.message(),
        "script exceeded the instruction limit (12345)"
    );
    assert_eq!(
        LimitExceeded::Instructions { limit: 0 }.message(),
        "script exceeded the instruction limit (0)"
    );
    assert_eq!(
        LimitExceeded::Instructions { limit: u64::MAX }.message(),
        "script exceeded the instruction limit (18446744073709551615)"
    );
    assert_eq!(LimitExceeded::Timeout.message(), "script exceeded its execution timeout");
}
