use eva_kernel::audit::AuditTrail;
use eva_kernel::ingress::{RecentIds, Watchdog};
use eva_kernel::kernel::{Kernel, KillSwitchRequest, RecordStamp};
use eva_kernel::laws::Constitution;
use eva_kernel::validator::{TradeAction, TradeValidationRequest};

fn kernel() -> Kernel {
    Kernel::new(Constitution::default(), AuditTrail::new(100))
}

fn request(id: &str) -> TradeValidationRequest {
    TradeValidationRequest {
        id: id.to_string(),
        symbol: "XAUUSD".to_string(),
        action: TradeAction::Buy,
        volume: 300_000,
        stop_loss: Some(2_050_000_000),
        take_profit: None,
        current_price: 2_080_000_000,
        account_balance: 100_000_000_000,
        open_positions_count: 0,
        daily_drawdown_percent: 0,
    }
}

fn stamp(n: u32) -> RecordStamp {
    RecordStamp { id: format!("rec-{}", n), timestamp: "2026-01-01T00:00:00+00:00".to_string() }
}

#[test]
fn latched_switch_rejects_with_403_and_audits() {
    let mut k = kernel();
    let act = KillSwitchRequest { action: "activate".to_string(), reason: None };
    let reply = k.handle_kill_switch(&act);
    assert_eq!(reply.status, 200);
    assert!(reply.response.success);
    let before = k.kill_switch.get_status().trades_blocked;
    let rep = k.handle_validate(&request("t1"));
    assert_eq!(rep.status, 403);
    assert!(!rep.result.allowed);
    assert!(rep.result.checks.is_empty());
    assert_eq!(k.kill_switch.get_status().trades_blocked, before + 1);
    let n = k.audit.len();
    assert_eq!(k.audit.records[n - 2].action, "KILL_SWITCH_ACTIVATED");
    assert_eq!(k.audit.records[n - 1].action, "TRADE_REJECTED");
    assert_eq!(k.audit.records[n - 2].details, "{\"reason\":\"Activation manuelle via HTTP\"}");
    assert!(k.audit.verify_chain());
}

#[test]
fn open_switch_validates_and_audits() {
    let mut k = kernel();
    let rep = k.handle_validate_at(&request("t2"), stamp(1));
    assert_eq!(rep.status, 200);
    assert!(rep.result.allowed);
    assert_eq!(k.audit.records[0].action, "TRADE_VALIDATED");
    assert_eq!(
        k.audit.records[0].details,
        "{\"trade_id\":\"t2\",\"symbol\":\"XAUUSD\",\"action\":\"BUY\",\"volume\":0.30,\"allowed\":true,\"risk_percent\":0.90,\"reason\":null}"
    );
    let mut big = request("t3");
    big.volume = 500_000;
    let rep = k.handle_validate_at(&big, stamp(2));
    assert_eq!(rep.status, 200);
    assert!(!rep.result.allowed);
    assert_eq!(k.audit.records[1].action, "TRADE_REJECTED");
}

#[test]
fn duplicate_submission_is_dropped() {
    let mut k = kernel();
    assert!(k.submit_at(&request("same"), stamp(1)).is_some());
    let len = k.audit.len();
    assert!(k.submit_at(&request("same"), stamp(2)).is_none());
    assert_eq!(k.audit.len(), len);
    assert_eq!(len, 1);
    assert!(k.submit_at(&request("other"), stamp(3)).is_some());
}

#[test]
fn reloaded_policy_applies_to_next_decision() {
    let mut k = kernel();
    let mut c = Constitution::default();
    c.version = "2.0.0".to_string();
    c.trading.max_concurrent_positions = 1;
    let mut r = request("p1");
    r.open_positions_count = 1;
    assert!(k.handle_validate_at(&r, stamp(1)).result.allowed);
    k.install_policy_at(c, stamp(2));
    assert_eq!(k.audit.records[1].action, "POLICY_RELOADED");
    let mut r2 = request("p2");
    r2.open_positions_count = 1;
    assert!(!k.handle_validate_at(&r2, stamp(3)).result.allowed);
    assert_eq!(k.health().constitution_version, "2.0.0");
}

#[test]
fn unknown_kill_switch_action_is_refused_and_audited() {
    let mut k = kernel();
    let req = KillSwitchRequest { action: "explode".to_string(), reason: None };
    let reply = k.handle_kill_switch_at(&req, 0, stamp(1));
    assert_eq!(reply.status, 400);
    assert!(!reply.response.success);
    assert_eq!(reply.response.message, "Action 'explode' inconnue. Utilisez 'activate' ou 'reset'.");
    assert!(!k.kill_switch.is_active());
    assert_eq!(k.audit.records[0].action, "KILL_SWITCH_REJECTED");
}

#[test]
fn reset_reopens_trading() {
    let mut k = kernel();
    let act = KillSwitchRequest { action: "activate".to_string(), reason: Some("test".to_string()) };
    k.handle_kill_switch_at(&act, 5, stamp(1));
    assert_eq!(k.kill_switch.get_status().reason.unwrap(), "test");
    let reset = KillSwitchRequest { action: "reset".to_string(), reason: None };
    let reply = k.handle_kill_switch_at(&reset, 6, stamp(2));
    assert_eq!(reply.status, 200);
    assert!(!reply.response.status.is_active);
    assert_eq!(k.handle_validate_at(&request("after"), stamp(3)).status, 200);
}

#[test]
fn failed_reload_keeps_policy() {
    let mut k = kernel();
    k.policy_reload_failed_at("bad toml", stamp(1));
    assert_eq!(k.audit.records[0].action, "POLICY_RELOAD_FAILED");
    assert_eq!(k.audit.records[0].details, "{\"error\":\"bad toml\"}");
    assert_eq!(k.validator.constitution.version, "1.0.0");
}

#[test]
fn health_reports_state() {
    let mut k = kernel();
    k.handle_validate_at(&request("h"), stamp(1));
    let h = k.health();
    assert_eq!(h.status, "operational");
    assert!(!h.kill_switch_active);
    assert_eq!(h.audit_records, 1);
}

#[test]
fn recent_ids_evict_least_recent() {
    let mut ids = RecentIds::new(2);
    assert!(ids.observe("a"));
    assert!(ids.observe("b"));
    assert!(!ids.observe("a"));
    assert!(ids.observe("c"));
    assert!(ids.contains("a"));
    assert!(!ids.contains("b"));
    assert!(ids.contains("c"));
}

#[test]
fn watchdog_alerts_once_per_window() {
    let mut w = Watchdog::new(0);
    assert!(!w.on_tick(10_000));
    assert!(w.on_tick(10_001));
    assert!(!w.on_tick(15_000));
    w.on_heartbeat(16_000);
    assert!(!w.on_tick(26_000));
    assert!(w.on_tick(26_001));
}

#[test]
fn kill_switch_reply_reports_the_switch() {
    let mut k = kernel();
    let act = KillSwitchRequest { action: "activate".to_string(), reason: Some("manual".to_string()) };
    let reply = k.handle_kill_switch_at(&act, 42, stamp(1));
    assert_eq!(reply.response.status.reason.as_deref(), Some("manual"));
    assert_eq!(reply.response.status.activated_at, Some(42));
    assert_eq!(reply.response.status.max_daily_drawdown, 4_000_000);
    let reset = KillSwitchRequest { action: "reset".to_string(), reason: None };
    let reply = k.handle_kill_switch_at(&reset, 43, stamp(2));
    let st = reply.response.status;
    assert!(!st.is_active);
    assert_eq!(st.activated_at, None);
    assert_eq!(st.reason, None);
    assert_eq!(st.current_drawdown, 0);
    assert_eq!(st.trades_blocked, 0);
    assert_eq!(st.max_daily_drawdown, 4_000_000);
    assert_eq!(k.audit.records[1].action, "KILL_SWITCH_RESET");
}

#[test]
fn invalid_request_is_audited() {
    let mut k = kernel();
    k.invalid_request_at("volume doit être > 0", stamp(1));
    assert_eq!(k.audit.records[0].action, "TRADE_REQUEST_INVALID");
    assert_eq!(k.audit.records[0].details, "{\"error\":\"volume doit être > 0\"}");
    assert!(!k.kill_switch.is_active());
}
