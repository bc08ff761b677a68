use eva_kernel::kill_switch::{KillSwitch, AUTO_RESET_SECONDS};

#[test]
fn test_new_kill_switch_is_inactive() {
    let ks = KillSwitch::new(4_000_000);
    assert!(!ks.is_active());
}

#[test]
fn test_force_shutdown_activates() {
    let mut ks = KillSwitch::new(4_000_000);
    ks.force_shutdown();
    assert!(ks.is_active());
}

#[test]
fn test_reset_deactivates() {
    let mut ks = KillSwitch::new(4_000_000);
    ks.force_shutdown();
    assert!(ks.is_active());
    ks.reset();
    assert!(!ks.is_active());
}

#[test]
fn test_drawdown_triggers_halt() {
    let mut ks = KillSwitch::new(4_000_000);
    ks.update_drawdown(4_500_000);
    assert!(ks.is_active());
}

#[test]
fn test_intercept_blocks_when_halted() {
    let mut ks = KillSwitch::new(4_000_000);
    ks.force_shutdown();
    assert!(!ks.intercept_request(1_000_000_000, 500_000));
    assert_eq!(ks.get_status().trades_blocked, 1);
}

#[test]
fn test_intercept_blocks_high_risk() {
    let mut ks = KillSwitch::new(4_000_000);
    assert!(!ks.intercept_request(1_000_000_000, 2_500_000)); // > 1%
}

#[test]
fn test_intercept_allows_valid_trade() {
    let mut ks = KillSwitch::new(4_000_000);
    assert!(ks.intercept_request(1_000_000_000, 500_000));
}

#[test]
fn high_risk_does_not_latch() {
    let mut ks = KillSwitch::new(4_000_000);
    assert!(!ks.intercept_request_at(0, 1_000_001, 10));
    assert!(!ks.is_active());
    assert!(ks.intercept_request_at(0, 1_000_000, 10));
}

#[test]
fn drawdown_at_limit_latches_on_intercept() {
    let mut ks = KillSwitch::new(4_000_000);
    ks.current_drawdown = 4_000_000;
    assert!(!ks.intercept_request_at(0, 100, 77));
    let status = ks.get_status();
    assert!(status.is_active);
    assert_eq!(status.activated_at, Some(77));
    assert_eq!(status.reason.unwrap(), "Drawdown journalier maximal atteint");
}

#[test]
fn drawdown_update_names_values() {
    let mut ks = KillSwitch::new(4_000_000);
    ks.update_drawdown_at(3_990_000, 5);
    assert!(!ks.is_active());
    ks.update_drawdown_at(4_500_000, 6);
    let status = ks.get_status();
    assert!(status.is_active);
    assert_eq!(status.current_drawdown, 4_500_000);
    assert_eq!(status.reason.unwrap(), "Drawdown 4.50% >= seuil 4.00%");
}

#[test]
fn second_activation_keeps_time_replaces_reason() {
    let mut ks = KillSwitch::new(4_000_000);
    ks.activate_at("first", 100);
    ks.activate_at("second", 200);
    let status = ks.get_status();
    assert_eq!(status.activated_at, Some(100));
    assert_eq!(status.reason.unwrap(), "second");
}

#[test]
fn reset_clears_everything() {
    let mut ks = KillSwitch::new(4_000_000);
    ks.update_drawdown_at(5_000_000, 1);
    ks.intercept_request_at(0, 0, 2);
    ks.reset();
    let status = ks.get_status();
    assert!(!status.is_active);
    assert_eq!(status.activated_at, None);
    assert_eq!(status.reason, None);
    assert_eq!(status.current_drawdown, 0);
    assert_eq!(status.trades_blocked, 0);
    assert_eq!(status.max_daily_drawdown, 4_000_000);
}

#[test]
fn auto_reset_after_a_day() {
    let mut ks = KillSwitch::new(4_000_000);
    ks.activate_at("x", 1_000);
    ks.check_auto_reset_at(1_000 + AUTO_RESET_SECONDS - 1);
    assert!(ks.is_active());
    ks.check_auto_reset_at(1_000 + AUTO_RESET_SECONDS);
    assert!(!ks.is_active());
}

#[test]
fn policy_limits_drive_intercept() {
    let mut ks = KillSwitch::with_limits(4_000_000, 2_000_000);
    assert!(ks.intercept_request_at(0, 1_500_000, 0));
    assert!(!ks.intercept_request_at(0, 2_500_000, 0));
}
