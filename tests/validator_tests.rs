use eva_kernel::laws::Constitution;
use eva_kernel::validator::{TradeAction, TradeValidationRequest, TradeValidator, FULL_RISK};

fn create_test_request() -> TradeValidationRequest {
    TradeValidationRequest {
        id: uuid::Uuid::new_v4().to_string(),
        symbol: "XAUUSD".to_string(),
        action: TradeAction::Buy,
        volume: 500_000,
        stop_loss: Some(2_050_000_000),
        take_profit: Some(2_120_000_000),
        current_price: 2_080_000_000,
        account_balance: 100_000_000_000,
        open_positions_count: 0,
        daily_drawdown_percent: 0,
    }
}

fn small_request() -> TradeValidationRequest {
    let mut r = create_test_request();
    r.volume = 300_000;
    r
}

#[test]
fn test_valid_trade() {
    // A 0.5 lot of gold carries 1.5 % risk, over the 1 % default; 0.3 lot stays within it.
    let constitution = Constitution::default();
    let validator = TradeValidator::new(constitution);
    let request = small_request();

    let result = validator.validate(&request);
    assert!(result.allowed);
    assert!(result.reason.is_none());
}

#[test]
fn test_missing_stop_loss() {
    let constitution = Constitution::default();
    let validator = TradeValidator::new(constitution);
    let mut request = create_test_request();
    request.stop_loss = None;

    let result = validator.validate(&request);
    assert!(!result.allowed);
    assert!(result.reason.unwrap().contains("Stop Loss"));
}

#[test]
fn test_max_positions_reached() {
    let constitution = Constitution::default();
    let validator = TradeValidator::new(constitution);
    let mut request = create_test_request();
    request.open_positions_count = 3;

    let result = validator.validate(&request);
    assert!(!result.allowed);
    assert!(result.reason.unwrap().contains("positions"));
}

#[test]
fn gold_half_lot_is_one_and_a_half_percent_risk() {
    let validator = TradeValidator::new(Constitution::default());
    let result = validator.validate(&create_test_request());
    assert_eq!(result.risk_percent, 1_500_000);
    assert!(!result.allowed);
    assert!(result.reason.as_ref().unwrap().contains("Risque"));
    assert_eq!(result.reason.unwrap(), "Risque 1.50% > max 1.00% (Loi 2)");
    assert_eq!(result.law_reference.unwrap(), "Loi 2 - Protection du Capital");
    assert!(!result.checks[1].passed);
    assert_eq!(result.checks[1].message, "Risque 1.50% trop élevé");
}

#[test]
fn gold_small_lot_passes_all_four_checks() {
    let validator = TradeValidator::new(Constitution::default());
    let result = validator.validate(&small_request());
    assert_eq!(result.risk_percent, 900_000);
    assert!(result.allowed);
    assert!(result.law_reference.is_none());
    let names: Vec<&str> = result.checks.iter().map(|c| c.name.as_str()).collect();
    assert_eq!(names, vec!["stop_loss", "risk_per_trade", "daily_drawdown", "max_positions"]);
    assert!(result.checks.iter().all(|c| c.passed));
    assert_eq!(result.checks[0].message, "Stop Loss présent");
    assert_eq!(result.checks[1].message, "Risque 0.90% <= max 1.00%");
    assert_eq!(result.checks[2].message, "DD journalier 0.00% OK");
    assert_eq!(result.checks[3].message, "Positions 0/3");
}

#[test]
fn missing_stop_loss_is_full_risk_and_first_check_fails() {
    let validator = TradeValidator::new(Constitution::default());
    let mut request = create_test_request();
    request.stop_loss = None;
    let result = validator.validate(&request);
    assert!(!result.allowed);
    assert!(!result.checks[0].passed);
    assert_eq!(result.checks[0].name, "stop_loss");
    assert_eq!(result.checks[0].message, "Stop Loss manquant");
    assert_eq!(result.risk_percent, FULL_RISK);
    assert_eq!(result.checks.len(), 4);
}

#[test]
fn three_positions_always_rejected() {
    let validator = TradeValidator::new(Constitution::default());
    for volume in [100_000u64, 300_000, 500_000] {
        let mut request = create_test_request();
        request.volume = volume;
        request.open_positions_count = 3;
        let result = validator.validate(&request);
        assert!(!result.allowed);
        assert!(!result.checks[3].passed);
        assert_eq!(result.checks[3].message, "Limite de positions atteinte");
        assert!(result.reason.unwrap().ends_with("Max positions atteint (3)"));
    }
}

#[test]
fn reason_lists_every_failing_check_in_order() {
    let validator = TradeValidator::new(Constitution::default());
    let mut request = create_test_request();
    request.stop_loss = None;
    request.open_positions_count = 3;
    let result = validator.validate(&request);
    assert_eq!(
        result.reason.unwrap(),
        "Stop Loss obligatoire (ROE Trading); Risque 100.00% > max 1.00% (Loi 2); Max positions atteint (3)"
    );
}

#[test]
fn allowed_matches_all_checks_passed() {
    let validator = TradeValidator::new(Constitution::default());
    let mut cases = vec![create_test_request(), small_request()];
    let mut r = small_request();
    r.daily_drawdown_percent = 4_000_000;
    cases.push(r);
    let mut r = small_request();
    r.stop_loss = None;
    cases.push(r);
    for request in cases {
        let result = validator.validate(&request);
        assert_eq!(result.allowed, result.checks.iter().all(|c| c.passed));
        assert_eq!(result.reason.is_some(), !result.allowed);
        assert_eq!(result.law_reference.is_some(), !result.allowed);
    }
}

#[test]
fn drawdown_at_limit_is_rejected() {
    let validator = TradeValidator::new(Constitution::default());
    let mut request = small_request();
    request.daily_drawdown_percent = 4_000_000;
    let result = validator.validate(&request);
    assert!(!result.allowed);
    assert!(!result.checks[2].passed);
    assert_eq!(result.checks[2].message, "DD journalier limite atteinte");
    assert_eq!(result.reason.unwrap(), "Drawdown journalier 4.00% >= limite 4.00%");
    request.daily_drawdown_percent = 3_999_999;
    assert!(validator.validate(&request).allowed);
}

#[test]
fn forex_symbol_uses_ten_per_point() {
    let validator = TradeValidator::new(Constitution::default());
    let mut request = create_test_request();
    request.symbol = "EURUSD".to_string();
    // 30 × 0.5 × 10 / 100000 × 100 = 0.15 %
    let result = validator.validate(&request);
    assert_eq!(result.risk_percent, 150_000);
    assert!(result.allowed);
}

#[test]
fn empty_balance_is_full_risk() {
    let validator = TradeValidator::new(Constitution::default());
    let mut request = small_request();
    request.account_balance = 0;
    let result = validator.validate(&request);
    assert_eq!(result.risk_percent, FULL_RISK);
    assert!(!result.allowed);
}

#[test]
fn huge_risk_saturates() {
    let validator = TradeValidator::new(Constitution::default());
    let mut request = small_request();
    request.current_price = u64::MAX;
    request.stop_loss = Some(0);
    request.volume = u64::MAX;
    request.account_balance = 1;
    let result = validator.validate(&request);
    assert_eq!(result.risk_percent, u64::MAX);
    assert!(!result.allowed);
}

#[test]
fn stop_loss_optional_when_policy_allows() {
    let mut c = Constitution::default();
    c.trading.require_stop_loss = false;
    let validator = TradeValidator::new(c);
    let mut request = small_request();
    request.stop_loss = None;
    let result = validator.validate(&request);
    assert!(result.checks[0].passed);
    assert_eq!(result.checks[0].message, "Stop Loss non requis");
    assert!(!result.checks[1].passed);
}

#[test]
fn validator_getters_report_policy() {
    let validator = TradeValidator::new(Constitution::default());
    assert_eq!(validator.get_max_risk_per_trade(), 1_000_000);
    assert_eq!(validator.get_max_daily_drawdown(), 4_000_000);
    assert_eq!(validator.get_max_positions(), 3);
}
