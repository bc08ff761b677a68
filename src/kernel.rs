//! The decision pipeline: kill-switch check, validation, audit append, reply.
use crate::audit::{json_quote, json_quoted, window_after, AuditRecord, AuditTrail};
use crate::clock::{new_uuid_text, now_rfc3339, now_unix_seconds};
use crate::ingress::{RecentIds, MIN_RECENT_IDS};
use crate::kill_switch::{KillSwitch, KillSwitchStatus};
use crate::laws::Constitution;
use crate::text::{fixed2_text, push_fixed2, push_text, text_of};
use crate::validator::{
    is_validation_of, TradeAction, TradeValidationRequest, TradeValidator, ValidationCheck,
    ValidationResult,
};
use vstd::prelude::*;

verus! {

/// Answer of `GET /health`.
#[derive(Debug, Clone)]
pub struct HealthResponse {
    pub status: String,
    pub message: String,
    pub kill_switch_active: bool,
    pub constitution_version: String,
    pub audit_records: usize,
}

/// Body of `POST /kill-switch`.
#[derive(Debug, Clone)]
pub struct KillSwitchRequest {
    pub action: String,
    pub reason: Option<String>,
}

/// Answer of `POST /kill-switch`.
#[derive(Debug, Clone)]
pub struct KillSwitchResponse {
    pub success: bool,
    pub status: KillSwitchStatus,
    pub message: String,
}

/// An HTTP status code with the validation result that goes with it.
#[derive(Debug)]
pub struct ValidationReply {
    pub status: u16,
    pub result: ValidationResult,
}

/// An HTTP status code with the kill-switch answer that goes with it.
#[derive(Debug)]
pub struct KillSwitchReply {
    pub status: u16,
    pub response: KillSwitchResponse,
}

/// The identifier and RFC 3339 time given to the next audit record.
pub struct RecordStamp {
    pub id: String,
    pub timestamp: String,
}

/// The kernel's shared state.
pub struct Kernel {
    pub validator: TradeValidator,
    pub kill_switch: KillSwitch,
    pub audit: AuditTrail,
    pub recent: RecentIds,
}

pub open spec fn action_json(a: TradeAction) -> Seq<char> {
    match a {
        TradeAction::Buy => "\"BUY\""@,
        TradeAction::Sell => "\"SELL\""@,
    }
}

pub open spec fn bool_json(b: bool) -> Seq<char> {
    if b {
        "true"@
    } else {
        "false"@
    }
}

pub open spec fn reason_json(o: Option<String>) -> Seq<char> {
    match o {
        Some(s) => json_quoted(s@),
        None => "null"@,
    }
}

/// The audit details of a trade decision.
pub open spec fn trade_details(req: TradeValidationRequest, res: ValidationResult) -> Seq<char> {
    "{\"trade_id\":"@ + json_quoted(req.id@) + ",\"symbol\":"@ + json_quoted(req.symbol@)
        + ",\"action\":"@ + action_json(req.action) + ",\"volume\":"@ + fixed2_text(req.volume as nat)
        + ",\"allowed\":"@ + bool_json(res.allowed) + ",\"risk_percent\":"@ + fixed2_text(
        res.risk_percent as nat,
    ) + ",\"reason\":"@ + reason_json(res.reason) + "}"@
}

pub open spec fn decision_action(allowed: bool) -> Seq<char> {
    if allowed {
        "TRADE_VALIDATED"@
    } else {
        "TRADE_REJECTED"@
    }
}

/// The result given for every trade while the kill-switch is latched.
pub open spec fn is_latched_rejection(r: ValidationResult) -> bool {
    &&& !r.allowed
    &&& r.reason matches Some(s) && s@ == "KILL_SWITCH_ACTIVE — Tout trading est bloqué"@
    &&& r.law_reference matches Some(s) && s@ == "Loi 2 — Kill-Switch"@
    &&& r.risk_percent == 0
    &&& r.checks@.len() == 0
}

/// `new` is `old` with one record appended by the kernel, with the given action and details.
pub open spec fn appended(old: AuditTrail, new: AuditTrail, action: Seq<char>, details: Seq<char>) -> bool {
    exists|rec: AuditRecord|
        {
            &&& rec.agent@ == "kernel"@
            &&& rec.action@ == action
            &&& rec.details@ == details
            &&& rec.previous_hash@ == old.last_hash@
            &&& rec.record_hash@ == rec.expected_hash()
            &&& new.records@ == window_after(old.records@, rec, old.max_records as nat)
            &&& new.last_hash@ == rec.record_hash@
            &&& new.max_records == old.max_records
        }
}

pub open spec fn saturating_inc(n: u64) -> u64 {
    if n < u64::MAX {
        (n + 1) as u64
    } else {
        n
    }
}

/// One trade decision taken from state `old` to state `new`, answered with `rep`.
pub open spec fn decided(old: Kernel, new: Kernel, req: TradeValidationRequest, rep: ValidationReply) -> bool {
    &&& new.wf()
    &&& new.validator == old.validator
    &&& if old.kill_switch.is_halted {
        &&& rep.status == 403
        &&& is_latched_rejection(rep.result)
        &&& new.kill_switch.is_halted
        &&& new.kill_switch.trades_blocked == saturating_inc(old.kill_switch.trades_blocked)
        &&& new.kill_switch.activated_at == old.kill_switch.activated_at
        &&& new.kill_switch.reason == old.kill_switch.reason
        &&& new.kill_switch.current_drawdown == old.kill_switch.current_drawdown
        &&& new.kill_switch.max_daily_drawdown == old.kill_switch.max_daily_drawdown
        &&& new.kill_switch.max_risk_per_trade == old.kill_switch.max_risk_per_trade
        &&& appended(old.audit, new.audit, "TRADE_REJECTED"@, trade_details(req, rep.result))
    } else {
        &&& is_validation_of(rep.result, old.validator.constitution.trading, req)
        &&& rep.status == 200
        &&& new.kill_switch == old.kill_switch
        &&& appended(
            old.audit,
            new.audit,
            decision_action(rep.result.allowed),
            trade_details(req, rep.result),
        )
    }
}

/// A submission from an ingress transport: a repeated id is dropped with no effect beyond
/// refreshing it; a new id is decided.
pub open spec fn submitted(
    old: Kernel,
    new: Kernel,
    req: TradeValidationRequest,
    r: Option<ValidationReply>,
) -> bool {
    &&& new.recent.texts().contains(req.id@)
    &&& new.recent.wf()
    &&& if old.recent.texts().contains(req.id@) {
        &&& r is None
        &&& new.validator == old.validator
        &&& new.kill_switch == old.kill_switch
        &&& new.audit == old.audit
    } else {
        r matches Some(rep) && decided(old, new, req, rep)
    }
}

/// A new policy snapshot installed from state `old` to state `new`.
pub open spec fn reloaded(old: Kernel, new: Kernel, c: Constitution) -> bool {
    &&& new.wf()
    &&& new.validator.constitution == c
    &&& new.kill_switch.is_halted == old.kill_switch.is_halted
    &&& new.kill_switch.max_daily_drawdown == c.trading.max_daily_drawdown_percent
    &&& new.kill_switch.max_risk_per_trade == c.trading.max_risk_per_trade_percent
    &&& new.kill_switch.activated_at == old.kill_switch.activated_at
    &&& new.kill_switch.reason == old.kill_switch.reason
    &&& new.kill_switch.current_drawdown == old.kill_switch.current_drawdown
    &&& new.kill_switch.trades_blocked == old.kill_switch.trades_blocked
    &&& new.recent == old.recent
    &&& appended(old.audit, new.audit, "POLICY_RELOADED"@, "{\"version\":"@ + json_quoted(c.version@) + "}"@)
}

/// The reason an activation request latches with.
pub open spec fn activation_reason(request: KillSwitchRequest) -> Seq<char> {
    match request.reason {
        Some(s) => s@,
        None => "Activation manuelle via HTTP"@,
    }
}

/// One `POST /kill-switch` handled from state `old` to state `new`, answered with `r`. Every
/// attempt is audited, and the reply's status reports the switch as it ends.
pub open spec fn kill_switch_handled(old: Kernel, new: Kernel, request: KillSwitchRequest, r: KillSwitchReply) -> bool {
    &&& new.wf()
    &&& new.validator == old.validator
    &&& new.recent == old.recent
    &&& r.response.status.reports(new.kill_switch)
    &&& if request.action@ == "activate"@ {
        &&& r.status == 200 && r.response.success
        &&& new.kill_switch.is_halted
        &&& new.kill_switch.activated_at is Some
        &&& old.kill_switch.is_halted ==> new.kill_switch.activated_at == old.kill_switch.activated_at
        &&& new.kill_switch.reason matches Some(s) && s@ == activation_reason(request)
        &&& new.kill_switch.trades_blocked == old.kill_switch.trades_blocked
        &&& new.kill_switch.current_drawdown == old.kill_switch.current_drawdown
        &&& new.kill_switch.max_daily_drawdown == old.kill_switch.max_daily_drawdown
        &&& new.kill_switch.max_risk_per_trade == old.kill_switch.max_risk_per_trade
        &&& appended(
            old.audit,
            new.audit,
            "KILL_SWITCH_ACTIVATED"@,
            "{\"reason\":"@ + json_quoted(activation_reason(request)) + "}"@,
        )
    } else if request.action@ == "reset"@ {
        &&& r.status == 200 && r.response.success
        &&& new.kill_switch.is_reset_of(old.kill_switch)
        &&& appended(old.audit, new.audit, "KILL_SWITCH_RESET"@, "{\"admin\":true}"@)
    } else {
        &&& r.status == 400 && !r.response.success
        &&& new.kill_switch == old.kill_switch
        &&& r.response.message@ == "Action '"@ + request.action@ + "' inconnue. Utilisez 'activate' ou 'reset'."@
        &&& appended(
            old.audit,
            new.audit,
            "KILL_SWITCH_REJECTED"@,
            "{\"action\":"@ + json_quoted(request.action@) + "}"@,
        )
    }
}

impl Kernel {
    pub open spec fn wf(&self) -> bool {
        &&& self.kill_switch.wf()
        &&& self.audit.wf()
        &&& self.recent.wf()
    }

    /// A kernel over a policy and an audit trail, with the switch open and no id seen.
    pub fn new(constitution: Constitution, audit: AuditTrail) -> (r: Self)
        requires
            audit.wf(),
        ensures
            r.wf(),
            r.validator.constitution == constitution,
            !r.kill_switch.is_halted,
            r.kill_switch.trades_blocked == 0,
            r.kill_switch.max_daily_drawdown == constitution.trading.max_daily_drawdown_percent,
            r.kill_switch.max_risk_per_trade == constitution.trading.max_risk_per_trade_percent,
            r.audit == audit,
            r.recent.texts().len() == 0,
    {
        let kill_switch = KillSwitch::with_limits(
            constitution.trading.max_daily_drawdown_percent,
            constitution.trading.max_risk_per_trade_percent,
        );
        Kernel {
            validator: TradeValidator::new(constitution),
            kill_switch,
            audit,
            recent: RecentIds::new(MIN_RECENT_IDS),
        }
    }

    /// A fresh stamp for the next audit record.
    pub fn next_stamp() -> (r: RecordStamp) {
        RecordStamp { id: new_uuid_text(), timestamp: now_rfc3339() }
    }

    fn latched_rejection() -> (r: ValidationResult)
        ensures
            is_latched_rejection(r),
    {
        ValidationResult {
            allowed: false,
            reason: Some(text_of("KILL_SWITCH_ACTIVE — Tout trading est bloqué")),
            law_reference: Some(text_of("Loi 2 — Kill-Switch")),
            risk_percent: 0,
            checks: Vec::<ValidationCheck>::new(),
        }
    }

    fn trade_details_text(req: &TradeValidationRequest, res: &ValidationResult) -> (r: String)
        ensures
            r@ == trade_details(*req, *res),
    {
        let mut s = text_of("{\"trade_id\":");
        push_text(&mut s, json_quote(req.id.as_str()).as_str());
        push_text(&mut s, ",\"symbol\":");
        push_text(&mut s, json_quote(req.symbol.as_str()).as_str());
        push_text(&mut s, ",\"action\":");
        match req.action {
            TradeAction::Buy => push_text(&mut s, "\"BUY\""),
            TradeAction::Sell => push_text(&mut s, "\"SELL\""),
        }
        push_text(&mut s, ",\"volume\":");
        push_fixed2(&mut s, req.volume);
        push_text(&mut s, ",\"allowed\":");
        if res.allowed {
            push_text(&mut s, "true");
        } else {
            push_text(&mut s, "false");
        }
        push_text(&mut s, ",\"risk_percent\":");
        push_fixed2(&mut s, res.risk_percent);
        push_text(&mut s, ",\"reason\":");
        match &res.reason {
            Some(text) => push_text(&mut s, json_quote(text.as_str()).as_str()),
            None => push_text(&mut s, "null"),
        }
        push_text(&mut s, "}");
        s
    }

    fn append(&mut self, action: &str, details: String, stamp: RecordStamp)
        requires
            old(self).wf(),
        ensures
            final(self).wf(),
            appended(old(self).audit, final(self).audit, action@, details@),
            final(self).validator == old(self).validator,
            final(self).kill_switch == old(self).kill_switch,
            final(self).recent == old(self).recent,
    {
        let ghost before = self.audit;
        let rec = self.audit.record_at("kernel", action, details, stamp.id, stamp.timestamp);
        assert(rec.agent@ == "kernel"@);
        assert(self.audit.records@ == window_after(before.records@, rec, before.max_records as nat));
    }

    /// Decides on a trade: a latched switch rejects it with 403 without consulting the
    /// validator and counts the block; otherwise the validator decides and the answer
    /// is 200 with its result, allowed or not. Either way the decision is appended to the audit trail.
    pub fn handle_validate_at(&mut self, request: &TradeValidationRequest, stamp: RecordStamp) -> (r:
        ValidationReply)
        requires
            old(self).wf(),
        ensures
            decided(*old(self), *final(self), *request, r),
            final(self).recent == old(self).recent,
    {
        if self.kill_switch.is_active() {
            // The switch is latched: the call only counts the block, the time plays no part.
            self.kill_switch.intercept_request_at(request.volume, 0, 0);
            let result = Self::latched_rejection();
            let details = Self::trade_details_text(request, &result);
            self.append("TRADE_REJECTED", details, stamp);
            return ValidationReply { status: 403, result };
        }
        let result = self.validator.validate(request);
        let details = Self::trade_details_text(request, &result);
        if result.allowed {
            self.append("TRADE_VALIDATED", details, stamp);
            ValidationReply { status: 200, result }
        } else {
            self.append("TRADE_REJECTED", details, stamp);
            ValidationReply { status: 200, result }
        }
    }

    /// Decides on a trade, stamping the audit record now; see `handle_validate_at`.
    pub fn handle_validate(&mut self, request: &TradeValidationRequest) -> (r: ValidationReply)
        requires
            old(self).wf(),
        ensures
            decided(*old(self), *final(self), *request, r),
            final(self).recent == old(self).recent,
    {
        let stamp = Self::next_stamp();
        self.handle_validate_at(request, stamp)
    }

    /// A request from a message transport: dropped when its id was seen recently, decided
    /// otherwise.
    pub fn submit_at(&mut self, request: &TradeValidationRequest, stamp: RecordStamp) -> (r: Option<
        ValidationReply,
    >)
        requires
            old(self).wf(),
        ensures
            submitted(*old(self), *final(self), *request, r),
    {
        let fresh = self.recent.observe(request.id.as_str());
        if !fresh {
            return None;
        }
        let ghost mid = *self;
        let rep = self.handle_validate_at(request, stamp);
        assert(decided(mid, *self, *request, rep));
        Some(rep)
    }

    /// A request from a message transport, stamped now; see `submit_at`.
    pub fn submit(&mut self, request: &TradeValidationRequest) -> (r: Option<ValidationReply>)
        requires
            old(self).wf(),
        ensures
            submitted(*old(self), *final(self), *request, r),
    {
        let stamp = Self::next_stamp();
        self.submit_at(request, stamp)
    }

    /// Activates or resets the kill-switch at time `now`, auditing the attempt. An unknown
    /// action is refused with 400.
    pub fn handle_kill_switch_at(&mut self, request: &KillSwitchRequest, now: i64, stamp: RecordStamp) -> (r:
        KillSwitchReply)
        requires
            old(self).wf(),
        ensures
            kill_switch_handled(*old(self), *final(self), *request, r),
    {
        proof {
            reveal_strlit("activate");
            reveal_strlit("reset");
            assert("activate"@.len() != "reset"@.len());
        }
        let activate = text_of("activate");
        let reset = text_of("reset");
        if request.action == activate {
            let reason = match &request.reason {
                Some(s) => s.clone(),
                None => text_of("Activation manuelle via HTTP"),
            };
            self.kill_switch.activate_at(reason.as_str(), now);
            let mut details = text_of("{\"reason\":");
            push_text(&mut details, json_quote(reason.as_str()).as_str());
            push_text(&mut details, "}");
            self.append("KILL_SWITCH_ACTIVATED", details, stamp);
            KillSwitchReply {
                status: 200,
                response: KillSwitchResponse {
                    success: true,
                    status: self.kill_switch.get_status(),
                    message: text_of("Kill-Switch activé."),
                },
            }
        } else if request.action == reset {
            self.kill_switch.reset();
            self.append("KILL_SWITCH_RESET", text_of("{\"admin\":true}"), stamp);
            KillSwitchReply {
                status: 200,
                response: KillSwitchResponse {
                    success: true,
                    status: self.kill_switch.get_status(),
                    message: text_of("Kill-Switch désactivé."),
                },
            }
        } else {
            let mut details = text_of("{\"action\":");
            push_text(&mut details, json_quote(request.action.as_str()).as_str());
            push_text(&mut details, "}");
            self.append("KILL_SWITCH_REJECTED", details, stamp);
            let mut message = text_of("Action '");
            push_text(&mut message, request.action.as_str());
            push_text(&mut message, "' inconnue. Utilisez 'activate' ou 'reset'.");
            KillSwitchReply {
                status: 400,
                response: KillSwitchResponse { success: false, status: self.kill_switch.get_status(), message },
            }
        }
    }

    /// Activates or resets the kill-switch now; see `handle_kill_switch_at`.
    pub fn handle_kill_switch(&mut self, request: &KillSwitchRequest) -> (r: KillSwitchReply)
        requires
            old(self).wf(),
        ensures
            kill_switch_handled(*old(self), *final(self), *request, r),
    {
        let now = now_unix_seconds();
        let stamp = Self::next_stamp();
        self.handle_kill_switch_at(request, now, stamp)
    }

    /// Installs a new policy snapshot: later decisions use its limits, and so does the
    /// kill-switch. The reload is audited.
    pub fn install_policy_at(&mut self, constitution: Constitution, stamp: RecordStamp)
        requires
            old(self).wf(),
        ensures
            reloaded(*old(self), *final(self), constitution),
    {
        let mut details = text_of("{\"version\":");
        push_text(&mut details, json_quote(constitution.version.as_str()).as_str());
        push_text(&mut details, "}");
        self.kill_switch.max_daily_drawdown = constitution.trading.max_daily_drawdown_percent;
        self.kill_switch.max_risk_per_trade = constitution.trading.max_risk_per_trade_percent;
        self.validator = TradeValidator::new(constitution);
        self.append("POLICY_RELOADED", details, stamp);
    }

    /// Installs a new policy snapshot, stamped now; see `install_policy_at`.
    pub fn install_policy(&mut self, constitution: Constitution)
        requires
            old(self).wf(),
        ensures
            reloaded(*old(self), *final(self), constitution),
    {
        let stamp = Self::next_stamp();
        self.install_policy_at(constitution, stamp);
    }

    /// Audits a failed policy reload; the active snapshot stays.
    pub fn policy_reload_failed_at(&mut self, error: &str, stamp: RecordStamp)
        requires
            old(self).wf(),
        ensures
            final(self).wf(),
            final(self).validator == old(self).validator,
            final(self).kill_switch == old(self).kill_switch,
            appended(
                old(self).audit,
                final(self).audit,
                "POLICY_RELOAD_FAILED"@,
                "{\"error\":"@ + json_quoted(error@) + "}"@,
            ),
    {
        let mut details = text_of("{\"error\":");
        push_text(&mut details, json_quote(error).as_str());
        push_text(&mut details, "}");
        self.append("POLICY_RELOAD_FAILED", details, stamp);
    }

    /// Audits a request whose body could not be read as a trade; nothing else changes.
    pub fn invalid_request_at(&mut self, error: &str, stamp: RecordStamp)
        requires
            old(self).wf(),
        ensures
            final(self).wf(),
            final(self).validator == old(self).validator,
            final(self).kill_switch == old(self).kill_switch,
            final(self).recent == old(self).recent,
            appended(
                old(self).audit,
                final(self).audit,
                "TRADE_REQUEST_INVALID"@,
                "{\"error\":"@ + json_quoted(error@) + "}"@,
            ),
    {
        let mut details = text_of("{\"error\":");
        push_text(&mut details, json_quote(error).as_str());
        push_text(&mut details, "}");
        self.append("TRADE_REQUEST_INVALID", details, stamp);
    }

    /// The state reported by `GET /health`.
    pub fn health(&self) -> (r: HealthResponse)
        ensures
            r.status@ == "operational"@,
            r.kill_switch_active == self.kill_switch.is_halted,
            r.constitution_version@ == self.validator.constitution.version@,
            r.audit_records == self.audit.records@.len(),
    {
        HealthResponse {
            status: text_of("operational"),
            message: text_of("EVA Kernel is running."),
            kill_switch_active: self.kill_switch.is_active(),
            constitution_version: self.validator.constitution.version.clone(),
            audit_records: self.audit.len(),
        }
    }
}

/// While the kill-switch is latched, every decision rejects the trade with 403, whatever
/// the validator would have said, and counts one more blocked trade.
pub proof fn lemma_latched_switch_overrides(old: Kernel, new: Kernel, req: TradeValidationRequest, rep: ValidationReply)
    requires
        decided(old, new, req, rep),
        old.kill_switch.is_halted,
    ensures
        !rep.result.allowed,
        rep.status == 403,
        rep.result.checks@.len() == 0,
        new.kill_switch.is_halted,
        new.kill_switch.trades_blocked == saturating_inc(old.kill_switch.trades_blocked),
{
}

/// Two submissions of the same request back to back yield one decision: the second is
/// dropped and leaves the audit trail as the first left it.
pub proof fn lemma_duplicate_dropped(
    k0: Kernel,
    k1: Kernel,
    k2: Kernel,
    req: TradeValidationRequest,
    r1: Option<ValidationReply>,
    r2: Option<ValidationReply>,
)
    requires
        submitted(k0, k1, req, r1),
        submitted(k1, k2, req, r2),
    ensures
        r2 is None,
        k2.audit == k1.audit,
        k2.kill_switch == k1.kill_switch,
        !k0.recent.texts().contains(req.id@) ==> (r1 matches Some(rep) && decided(k0, k1, req, rep)),
{
}

/// The window after one append ends with the new record, and, when it holds two or more
/// records, the previous newest comes just before it.
pub proof fn lemma_window_newest(s: Seq<AuditRecord>, r: AuditRecord, max: nat)
    requires
        max >= 1,
        s.len() <= max,
    ensures
        window_after(s, r, max).len() >= 1,
        window_after(s, r, max).last() == r,
        max >= 2 && s.len() >= 1 ==> window_after(s, r, max).len() >= 2 && window_after(s, r, max)[window_after(
            s,
            r,
            max,
        ).len() - 2] == s.last(),
{
    let w = window_after(s, r, max);
    let t = s.push(r);
    if s.len() + 1 > max {
        assert(w =~= t.subrange(1, t.len() as int));
        assert(w[w.len() - 1] == t[t.len() - 1]);
        if max >= 2 && s.len() >= 1 {
            assert(w[w.len() - 2] == t[t.len() - 2]);
        }
    } else {
        assert(w == t);
    }
}

/// An activation through the control surface followed by any trade: the trade is refused
/// with 403, one more trade is counted as blocked, and with room for two records the audit
/// trail ends with the activation and then the rejection.
pub proof fn lemma_activation_then_trade(
    k0: Kernel,
    k1: Kernel,
    k2: Kernel,
    activation: KillSwitchRequest,
    reply: KillSwitchReply,
    req: TradeValidationRequest,
    rep: ValidationReply,
)
    requires
        k0.wf(),
        activation.action@ == "activate"@,
        kill_switch_handled(k0, k1, activation, reply),
        decided(k1, k2, req, rep),
    ensures
        rep.status == 403,
        !rep.result.allowed,
        k2.kill_switch.trades_blocked == saturating_inc(k0.kill_switch.trades_blocked),
        k0.audit.max_records >= 2 ==> {
            let w = k2.audit.records@;
            &&& w.len() >= 2
            &&& w[w.len() - 1].action@ == "TRADE_REJECTED"@
            &&& w[w.len() - 2].action@ == "KILL_SWITCH_ACTIVATED"@
        },
{
    if k0.audit.max_records >= 2 {
        let rec1 = choose|rec: AuditRecord|
            {
                &&& rec.agent@ == "kernel"@
                &&& rec.action@ == "KILL_SWITCH_ACTIVATED"@
                &&& rec.details@ == "{\"reason\":"@ + json_quoted(activation_reason(activation)) + "}"@
                &&& rec.previous_hash@ == k0.audit.last_hash@
                &&& rec.record_hash@ == rec.expected_hash()
                &&& k1.audit.records@ == window_after(k0.audit.records@, rec, k0.audit.max_records as nat)
                &&& k1.audit.last_hash@ == rec.record_hash@
                &&& k1.audit.max_records == k0.audit.max_records
            };
        let rec2 = choose|rec: AuditRecord|
            {
                &&& rec.agent@ == "kernel"@
                &&& rec.action@ == "TRADE_REJECTED"@
                &&& rec.details@ == trade_details(req, rep.result)
                &&& rec.previous_hash@ == k1.audit.last_hash@
                &&& rec.record_hash@ == rec.expected_hash()
                &&& k2.audit.records@ == window_after(k1.audit.records@, rec, k1.audit.max_records as nat)
                &&& k2.audit.last_hash@ == rec.record_hash@
                &&& k2.audit.max_records == k1.audit.max_records
            };
        lemma_window_newest(k0.audit.records@, rec1, k0.audit.max_records as nat);
        lemma_window_newest(k1.audit.records@, rec2, k1.audit.max_records as nat);
    }
}

/// After a new policy is installed, the next decision on an open switch is the validation
/// under the new policy's trading rules.
pub proof fn lemma_reload_takes_effect(
    k0: Kernel,
    k1: Kernel,
    k2: Kernel,
    c: Constitution,
    req: TradeValidationRequest,
    rep: ValidationReply,
)
    requires
        reloaded(k0, k1, c),
        decided(k1, k2, req, rep),
        !k1.kill_switch.is_halted,
    ensures
        is_validation_of(rep.result, c.trading, req),
{
}

} // verus!
