//! The trade validator: a pure decision over a policy snapshot and a trade request.
use crate::laws::{Constitution, TradingRoe};
use crate::text::{
    contains_text, decimal_text, fixed2_text, has_substring, push_decimal, push_fixed2, push_text,
    text_of,
};
use vstd::prelude::*;

verus! {

/// Side of an order.
#[derive(Debug, Clone, Copy, PartialEq, Eq)]
pub enum TradeAction {
    Buy,
    Sell,
}

/// One named check of a validation.
#[derive(Debug, Clone)]
pub struct ValidationCheck {
    pub name: String,
    pub passed: bool,
    pub message: String,
}

/// The outcome of a validation. `risk_percent` is counted in millionths of a percent.
#[derive(Debug, Clone)]
pub struct ValidationResult {
    pub allowed: bool,
    pub reason: Option<String>,
    pub law_reference: Option<String>,
    pub risk_percent: u64,
    pub checks: Vec<ValidationCheck>,
}

/// A trade submitted for validation. Volumes, prices, the balance and the drawdown
/// percentage are counted in millionths.
#[derive(Debug, Clone)]
pub struct TradeValidationRequest {
    pub id: String,
    pub symbol: String,
    pub action: TradeAction,
    pub volume: u64,
    pub stop_loss: Option<u64>,
    pub take_profit: Option<u64>,
    pub current_price: u64,
    pub account_balance: u64,
    pub open_positions_count: u32,
    pub daily_drawdown_percent: u64,
}

/// The validator over one policy snapshot.
pub struct TradeValidator {
    pub constitution: Constitution,
}

/// The risk reported when it cannot be bounded: 100 %.
pub const FULL_RISK: u64 = 100_000_000;

pub open spec fn opt_text(o: Option<String>) -> Option<Seq<char>> {
    match o {
        Some(s) => Some(s@),
        None => None,
    }
}

/// Loss per lot and per price unit: 100 for gold symbols, 10 otherwise.
pub open spec fn point_value(symbol: Seq<char>) -> int {
    if has_substring(symbol, "XAU"@) {
        100
    } else {
        10
    }
}

pub open spec fn abs_diff(a: u64, b: u64) -> int {
    if a >= b {
        a - b
    } else {
        b - a
    }
}

/// Risk of the trade in millionths of a percent: `100 × |price − stop| × volume × point value / balance`
/// (saturated at `u64::MAX`), or 100 % without a stop loss or with an empty balance.
pub open spec fn risk_of(req: TradeValidationRequest) -> u64 {
    match req.stop_loss {
        None => FULL_RISK,
        Some(sl) => if req.account_balance == 0 {
            FULL_RISK
        } else {
            let exact = abs_diff(req.current_price, sl) * req.volume * (100 * point_value(req.symbol@))
                / (req.account_balance as int);
            if exact > u64::MAX {
                u64::MAX
            } else {
                exact as u64
            }
        },
    }
}

pub open spec fn stop_loss_passes(t: TradingRoe, req: TradeValidationRequest) -> bool {
    !(t.require_stop_loss && req.stop_loss is None)
}

pub open spec fn risk_passes(t: TradingRoe, req: TradeValidationRequest) -> bool {
    risk_of(req) <= t.max_risk_per_trade_percent
}

pub open spec fn drawdown_passes(t: TradingRoe, req: TradeValidationRequest) -> bool {
    req.daily_drawdown_percent < t.max_daily_drawdown_percent
}

pub open spec fn positions_pass(t: TradingRoe, req: TradeValidationRequest) -> bool {
    req.open_positions_count < t.max_concurrent_positions
}

pub open spec fn stop_loss_message(t: TradingRoe, req: TradeValidationRequest) -> Seq<char> {
    if req.stop_loss is Some {
        "Stop Loss présent"@
    } else if t.require_stop_loss {
        "Stop Loss manquant"@
    } else {
        "Stop Loss non requis"@
    }
}

pub open spec fn risk_message(t: TradingRoe, req: TradeValidationRequest) -> Seq<char> {
    if risk_passes(t, req) {
        "Risque "@ + fixed2_text(risk_of(req) as nat) + "% <= max "@ + fixed2_text(
            t.max_risk_per_trade_percent as nat,
        ) + "%"@
    } else {
        "Risque "@ + fixed2_text(risk_of(req) as nat) + "% trop élevé"@
    }
}

pub open spec fn drawdown_message(t: TradingRoe, req: TradeValidationRequest) -> Seq<char> {
    if drawdown_passes(t, req) {
        "DD journalier "@ + fixed2_text(req.daily_drawdown_percent as nat) + "% OK"@
    } else {
        "DD journalier limite atteinte"@
    }
}

pub open spec fn positions_message(t: TradingRoe, req: TradeValidationRequest) -> Seq<char> {
    if positions_pass(t, req) {
        "Positions "@ + decimal_text(req.open_positions_count as nat) + "/"@ + decimal_text(
            t.max_concurrent_positions as nat,
        )
    } else {
        "Limite de positions atteinte"@
    }
}

pub open spec fn stop_loss_reason() -> Seq<char> {
    "Stop Loss obligatoire (ROE Trading)"@
}

pub open spec fn risk_reason(t: TradingRoe, req: TradeValidationRequest) -> Seq<char> {
    "Risque "@ + fixed2_text(risk_of(req) as nat) + "% > max "@ + fixed2_text(
        t.max_risk_per_trade_percent as nat,
    ) + "% (Loi 2)"@
}

pub open spec fn drawdown_reason(t: TradingRoe, req: TradeValidationRequest) -> Seq<char> {
    "Drawdown journalier "@ + fixed2_text(req.daily_drawdown_percent as nat) + "% >= limite "@
        + fixed2_text(t.max_daily_drawdown_percent as nat) + "%"@
}

pub open spec fn positions_reason(t: TradingRoe) -> Seq<char> {
    "Max positions atteint ("@ + decimal_text(t.max_concurrent_positions as nat) + ")"@
}

/// A trade is allowed when all four checks pass.
pub open spec fn allowed_spec(t: TradingRoe, req: TradeValidationRequest) -> bool {
    stop_loss_passes(t, req) && risk_passes(t, req) && drawdown_passes(t, req) && positions_pass(t, req)
}

/// `acc` with `text` added when `fails`: reasons of failing checks are joined by "; ".
pub open spec fn with_reason(acc: Option<Seq<char>>, fails: bool, text: Seq<char>) -> Option<Seq<char>> {
    if !fails {
        acc
    } else {
        match acc {
            None => Some(text),
            Some(a) => Some(a + "; "@ + text),
        }
    }
}

/// The reasons of all failing checks, in check order; `None` when every check passes.
pub open spec fn reason_spec(t: TradingRoe, req: TradeValidationRequest) -> Option<Seq<char>> {
    with_reason(
        with_reason(
            with_reason(
                with_reason(None, !stop_loss_passes(t, req), stop_loss_reason()),
                !risk_passes(t, req),
                risk_reason(t, req),
            ),
            !drawdown_passes(t, req),
            drawdown_reason(t, req),
        ),
        !positions_pass(t, req),
        positions_reason(t),
    )
}

pub open spec fn capital_law_reference() -> Seq<char> {
    "Loi 2 - Protection du Capital"@
}

/// What `validate` returns for `req` under the trading rules `t`.
pub open spec fn is_validation_of(r: ValidationResult, t: TradingRoe, req: TradeValidationRequest) -> bool {
    &&& r.checks@.len() == 4
    &&& r.checks@[0].name@ == "stop_loss"@
    &&& r.checks@[0].passed == stop_loss_passes(t, req)
    &&& r.checks@[0].message@ == stop_loss_message(t, req)
    &&& r.checks@[1].name@ == "risk_per_trade"@
    &&& r.checks@[1].passed == risk_passes(t, req)
    &&& r.checks@[1].message@ == risk_message(t, req)
    &&& r.checks@[2].name@ == "daily_drawdown"@
    &&& r.checks@[2].passed == drawdown_passes(t, req)
    &&& r.checks@[2].message@ == drawdown_message(t, req)
    &&& r.checks@[3].name@ == "max_positions"@
    &&& r.checks@[3].passed == positions_pass(t, req)
    &&& r.checks@[3].message@ == positions_message(t, req)
    &&& r.risk_percent == risk_of(req)
    &&& r.allowed == allowed_spec(t, req)
    &&& opt_text(r.reason) == reason_spec(t, req)
    &&& opt_text(r.law_reference) == (if r.allowed {
        None
    } else {
        Some(capital_law_reference())
    })
}

/// A result is allowed exactly when every one of its checks passed.
pub open spec fn allowed_iff_all_checks_pass(r: ValidationResult) -> bool {
    r.allowed <==> forall|i: int| 0 <= i < r.checks@.len() ==> #[trigger] r.checks@[i].passed
}

fn add_reason(reason: Option<String>, text: String) -> (r: Option<String>)
    ensures
        opt_text(r) == with_reason(opt_text(reason), true, text@),
{
    match reason {
        None => Some(text),
        Some(mut a) => {
            push_text(&mut a, "; ");
            push_text(&mut a, text.as_str());
            Some(a)
        },
    }
}

fn make_check(name: &str, passed: bool, message: String) -> (r: ValidationCheck)
    ensures
        r.name@ == name@,
        r.passed == passed,
        r.message == message,
{
    ValidationCheck { name: text_of(name), passed, message }
}

proof fn lemma_quotient_exceeds_u64(x: int, b: int)
    requires
        x > u128::MAX,
        0 < b <= u64::MAX,
    ensures
        x / b > u64::MAX,
{
    let q = x / b;
    vstd::arithmetic::div_mod::lemma_fundamental_div_mod(x, b);
    if q <= u64::MAX {
        assert(x < (q + 1) * b) by (nonlinear_arith)
            requires
                x == b * q + x % b,
                x % b < b,
        ;
        assert((q + 1) * b <= (u64::MAX + 1) * u64::MAX) by (nonlinear_arith)
            requires
                0 <= q + 1 <= u64::MAX + 1,
                0 < b <= u64::MAX,
        ;
    }
}

impl TradeValidator {
    /// A validator over the given policy snapshot.
    pub fn new(constitution: Constitution) -> (r: Self)
        ensures
            r.constitution == constitution,
    {
        Self { constitution }
    }

    /// Risk of a trade with a stop loss, in millionths of a percent.
    fn calculate_risk_percent(request: &TradeValidationRequest, stop_loss: u64) -> (r: u64)
        requires
            request.stop_loss == Some(stop_loss),
        ensures
            r == risk_of(*request),
    {
        if request.account_balance == 0 {
            return FULL_RISK;
        }
        let dist: u64 = if request.current_price >= stop_loss {
            request.current_price - stop_loss
        } else {
            stop_loss - request.current_price
        };
        let gold = contains_text(request.symbol.as_str(), "XAU");
        let factor: u128 = if gold {
            10_000
        } else {
            1_000
        };
        assert(factor == 100 * point_value(request.symbol@));
        let d = dist as u128;
        let v = request.volume as u128;
        assert(d * v <= u64::MAX * u64::MAX) by (nonlinear_arith)
            requires
                0 <= d <= u64::MAX,
                0 <= v <= u64::MAX,
        ;
        let dv: u128 = d * v;
        let bal = request.account_balance as u128;
        if dv > u128::MAX / factor {
            proof {
                assert(dv * factor > u128::MAX) by (nonlinear_arith)
                    requires
                        dv > u128::MAX / factor,
                        factor > 0,
                ;
                lemma_quotient_exceeds_u64(dv * factor, bal as int);
            }
            return u64::MAX;
        }
        assert(dv * factor <= u128::MAX) by (nonlinear_arith)
            requires
                dv <= u128::MAX / factor,
                factor > 0,
        ;
        let q: u128 = dv * factor / bal;
        if q > u64::MAX as u128 {
            u64::MAX
        } else {
            q as u64
        }
    }

    fn risk_text(risk: u64, max: u64, passed: bool) -> (r: String)
        ensures
            passed ==> r@ == "Risque "@ + fixed2_text(risk as nat) + "% <= max "@ + fixed2_text(max as nat)
                + "%"@,
            !passed ==> r@ == "Risque "@ + fixed2_text(risk as nat) + "% trop élevé"@,
    {
        let mut s = text_of("Risque ");
        push_fixed2(&mut s, risk);
        if passed {
            push_text(&mut s, "% <= max ");
            push_fixed2(&mut s, max);
            push_text(&mut s, "%");
        } else {
            push_text(&mut s, "% trop élevé");
        }
        s
    }

    fn risk_reason_text(risk: u64, max: u64) -> (r: String)
        ensures
            r@ == "Risque "@ + fixed2_text(risk as nat) + "% > max "@ + fixed2_text(max as nat)
                + "% (Loi 2)"@,
    {
        let mut s = text_of("Risque ");
        push_fixed2(&mut s, risk);
        push_text(&mut s, "% > max ");
        push_fixed2(&mut s, max);
        push_text(&mut s, "% (Loi 2)");
        s
    }

    fn drawdown_text(dd: u64) -> (r: String)
        ensures
            r@ == "DD journalier "@ + fixed2_text(dd as nat) + "% OK"@,
    {
        let mut s = text_of("DD journalier ");
        push_fixed2(&mut s, dd);
        push_text(&mut s, "% OK");
        s
    }

    fn drawdown_reason_text(dd: u64, limit: u64) -> (r: String)
        ensures
            r@ == "Drawdown journalier "@ + fixed2_text(dd as nat) + "% >= limite "@ + fixed2_text(
                limit as nat,
            ) + "%"@,
    {
        let mut s = text_of("Drawdown journalier ");
        push_fixed2(&mut s, dd);
        push_text(&mut s, "% >= limite ");
        push_fixed2(&mut s, limit);
        push_text(&mut s, "%");
        s
    }

    fn positions_text(count: u32, max: u32) -> (r: String)
        ensures
            r@ == "Positions "@ + decimal_text(count as nat) + "/"@ + decimal_text(max as nat),
    {
        let mut s = text_of("Positions ");
        push_decimal(&mut s, count as u64);
        push_text(&mut s, "/");
        push_decimal(&mut s, max as u64);
        s
    }

    fn positions_reason_text(max: u32) -> (r: String)
        ensures
            r@ == "Max positions atteint ("@ + decimal_text(max as nat) + ")"@,
    {
        let mut s = text_of("Max positions atteint (");
        push_decimal(&mut s, max as u64);
        push_text(&mut s, ")");
        s
    }

    /// Validates a trade against the capital-protection law: four checks, always all emitted.
    pub fn validate(&self, request: &TradeValidationRequest) -> (r: ValidationResult)
        ensures
            is_validation_of(r, self.constitution.trading, *request),
            allowed_iff_all_checks_pass(r),
    {
        let t = self.constitution.trading;
        let ghost req = *request;
        let mut checks: Vec<ValidationCheck> = Vec::new();
        let mut allowed = true;
        let mut reason: Option<String> = None;

        // 1. stop loss
        let sl_check = if request.stop_loss.is_some() {
            make_check("stop_loss", true, text_of("Stop Loss présent"))
        } else if t.require_stop_loss {
            allowed = false;
            reason = add_reason(reason, text_of("Stop Loss obligatoire (ROE Trading)"));
            make_check("stop_loss", false, text_of("Stop Loss manquant"))
        } else {
            make_check("stop_loss", true, text_of("Stop Loss non requis"))
        };
        checks.push(sl_check);

        let risk_percent = match request.stop_loss {
            Some(sl) => Self::calculate_risk_percent(request, sl),
            None => FULL_RISK,
        };

        // 2. risk per trade
        let risk_ok = self.constitution.is_trade_risk_allowed(risk_percent);
        if !risk_ok {
            allowed = false;
            reason = add_reason(reason, Self::risk_reason_text(risk_percent, t.max_risk_per_trade_percent));
        }
        checks.push(
            make_check(
                "risk_per_trade",
                risk_ok,
                Self::risk_text(risk_percent, t.max_risk_per_trade_percent, risk_ok),
            ),
        );

        // 3. daily drawdown
        let dd_check = if self.constitution.is_daily_drawdown_ok(request.daily_drawdown_percent) {
            make_check("daily_drawdown", true, Self::drawdown_text(request.daily_drawdown_percent))
        } else {
            allowed = false;
            reason = add_reason(
                reason,
                Self::drawdown_reason_text(request.daily_drawdown_percent, t.max_daily_drawdown_percent),
            );
            make_check("daily_drawdown", false, text_of("DD journalier limite atteinte"))
        };
        checks.push(dd_check);

        // 4. open positions
        let pos_check = if self.constitution.can_open_position(request.open_positions_count) {
            make_check(
                "max_positions",
                true,
                Self::positions_text(request.open_positions_count, t.max_concurrent_positions),
            )
        } else {
            allowed = false;
            reason = add_reason(reason, Self::positions_reason_text(t.max_concurrent_positions));
            make_check("max_positions", false, text_of("Limite de positions atteinte"))
        };
        checks.push(pos_check);

        let law_reference = if !allowed {
            Some(text_of("Loi 2 - Protection du Capital"))
        } else {
            None
        };
        let r = ValidationResult { allowed, reason, law_reference, risk_percent, checks };
        assert(r.checks@[0].passed == stop_loss_passes(t, req));
        assert(r.checks@[1].passed == risk_passes(t, req));
        assert(r.checks@[2].passed == drawdown_passes(t, req));
        assert(r.checks@[3].passed == positions_pass(t, req));
        r
    }

    /// The per-trade risk limit of the policy.
    pub fn get_max_risk_per_trade(&self) -> (r: u64)
        ensures
            r == self.constitution.trading.max_risk_per_trade_percent,
    {
        self.constitution.trading.max_risk_per_trade_percent
    }

    /// The daily drawdown limit of the policy.
    pub fn get_max_daily_drawdown(&self) -> (r: u64)
        ensures
            r == self.constitution.trading.max_daily_drawdown_percent,
    {
        self.constitution.trading.max_daily_drawdown_percent
    }

    /// The cap on concurrent positions of the policy.
    pub fn get_max_positions(&self) -> (r: u32)
        ensures
            r == self.constitution.trading.max_concurrent_positions,
    {
        self.constitution.trading.max_concurrent_positions
    }
}

/// Every validation result is allowed exactly when all of its checks passed.
pub proof fn lemma_allowed_iff_checks_pass(r: ValidationResult, t: TradingRoe, req: TradeValidationRequest)
    requires
        is_validation_of(r, t, req),
    ensures
        allowed_iff_all_checks_pass(r),
{
    if !r.allowed {
        if !stop_loss_passes(t, req) {
            assert(!r.checks@[0].passed);
        } else if !risk_passes(t, req) {
            assert(!r.checks@[1].passed);
        } else if !drawdown_passes(t, req) {
            assert(!r.checks@[2].passed);
        } else {
            assert(!r.checks@[3].passed);
        }
    }
}

} // verus!
