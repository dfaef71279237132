use mimicry::{CallReal, CheckRealCall, RealCallGuard, RealCallMode, RealCallSwitch, UsageError};

#[test]
fn inactive_mode_routes_to_mock() {
    assert_eq!(RealCallMode::Inactive.route_call(), (false, RealCallMode::Inactive));
    assert_eq!(RealCallMode::default(), RealCallMode::Inactive);
}

#[test]
fn always_mode_routes_every_call_to_real() {
    assert_eq!(RealCallMode::Always.route_call(), (true, RealCallMode::Always));
}

#[test]
fn once_mode_routes_one_call_to_real() {
    let (first, after_first) = RealCallMode::Once.route_call();
    assert!(first);
    assert_eq!(after_first, RealCallMode::Inactive);
    let (second, after_second) = after_first.route_call();
    assert!(!second);
    assert_eq!(after_second, RealCallMode::Inactive);
}

#[test]
fn scope_opens_only_on_inactive_mode() {
    assert_eq!(
        RealCallMode::Inactive.open_scope(RealCallMode::Always),
        Ok(RealCallMode::Always)
    );
    assert_eq!(
        RealCallMode::Inactive.open_scope(RealCallMode::Once),
        Ok(RealCallMode::Once)
    );
    assert_eq!(
        RealCallMode::Always.open_scope(RealCallMode::Once),
        Err(UsageError::SwitchActive)
    );
    assert_eq!(
        RealCallMode::Once.open_scope(RealCallMode::Always),
        Err(UsageError::SwitchActive)
    );
}

#[test]
fn closing_a_scope_gives_inactive_mode() {
    assert_eq!(RealCallMode::Always.close_scope(), RealCallMode::Inactive);
    assert_eq!(RealCallMode::Once.close_scope(), RealCallMode::Inactive);
    assert_eq!(RealCallMode::Inactive.close_scope(), RealCallMode::Inactive);
}

#[test]
fn check_inactive_reports_open_scope() {
    assert_eq!(RealCallMode::Inactive.check_inactive(), Ok(()));
    assert_eq!(RealCallMode::Always.check_inactive(), Err(UsageError::SwitchActive));
    assert_eq!(RealCallMode::Once.check_inactive(), Err(UsageError::SwitchActive));
}

#[test]
fn fresh_switch_does_not_delegate() {
    let switch = RealCallSwitch::new();
    assert!(!switch.should_delegate());
    assert_eq!(switch.assert_inactive(), Ok(()));
    let switch = RealCallSwitch::default();
    assert!(!switch.should_delegate());
}

#[test]
fn switch_keeps_what_was_stored() {
    // Fails if the cell behind the switch forgets what `open` has written.
    let switch = RealCallSwitch::new();
    assert_eq!(switch.open(RealCallMode::Always), Ok(()));
    assert!(switch.should_delegate());
    assert!(switch.should_delegate());
    assert_eq!(switch.assert_inactive(), Err(UsageError::SwitchActive));
    switch.close();
    assert!(!switch.should_delegate());
    assert_eq!(switch.assert_inactive(), Ok(()));
}

#[test]
fn once_scope_delegates_exactly_one_call_before_it_closes() {
    let switch = RealCallSwitch::new();
    let guard = RealCallGuard::open(&switch, RealCallMode::Once).unwrap();
    assert!(switch.should_delegate());
    assert!(!switch.should_delegate());
    assert!(!switch.should_delegate());
    drop(guard);
    assert!(!switch.should_delegate());
}

#[test]
fn used_up_once_scope_allows_a_new_scope() {
    let switch = RealCallSwitch::new();
    let first = RealCallGuard::open(&switch, RealCallMode::Once).unwrap();
    assert!(switch.should_delegate());
    let second = RealCallGuard::open(&switch, RealCallMode::Always);
    assert!(second.is_ok());
    assert!(switch.should_delegate());
    drop(second);
    assert!(!switch.should_delegate());
    drop(first);
    assert_eq!(switch.assert_inactive(), Ok(()));
}

#[derive(Default)]
struct Spy {
    switch: RealCallSwitch,
}

impl CallReal for Spy {
    fn real_switch(&self) -> &RealCallSwitch {
        &self.switch
    }
}

struct PlainMock;

impl CheckRealCall for PlainMock {}

#[test]
fn plain_mock_never_calls_real() {
    assert!(!PlainMock.should_call_real());
    assert!(!PlainMock.should_call_real());
}

#[test]
fn nested_delegation_scope_is_usage_error() {
    let spy = Spy::default();
    let _guard = spy.call_real().unwrap();
    assert!(matches!(spy.call_real_once(), Err(UsageError::SwitchActive)));
    assert!(matches!(spy.call_real(), Err(UsageError::SwitchActive)));
    // The failed attempts have left the open scope as it was.
    assert!(spy.should_call_real());
}

#[test]
fn always_scope_ends_with_its_guard() {
    let spy = Spy::default();
    assert!(!spy.should_call_real());
    {
        let _guard = spy.call_real().unwrap();
        assert!(spy.should_call_real());
        assert!(spy.should_call_real());
    }
    assert!(!spy.should_call_real());
    assert_eq!(spy.real_switch().assert_inactive(), Ok(()));
}

#[test]
fn scope_returns_what_the_action_returns() {
    let spy = Spy::default();
    let delegated = spy.call_real_once().unwrap().scope(|| {
        let first = spy.should_call_real();
        let second = spy.should_call_real();
        (first, second)
    });
    assert_eq!(delegated, (true, false));
    assert!(!spy.should_call_real());
}
