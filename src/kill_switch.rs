//! The kill-switch: a latch that, once set, blocks every approval until it is reset.
use crate::clock::now_unix_seconds;
use crate::text::{fixed2_text, push_fixed2, push_text, text_of};
use vstd::prelude::*;

verus! {

/// Seconds after which a latched switch resets by itself.
pub const AUTO_RESET_SECONDS: i64 = 86_400;

/// A snapshot of the kill-switch. Drawdowns are counted in millionths of a percent,
/// `activated_at` in seconds since the Unix epoch.
#[derive(Debug, Clone)]
pub struct KillSwitchStatus {
    pub is_active: bool,
    pub activated_at: Option<i64>,
    pub reason: Option<String>,
    pub current_drawdown: u64,
    pub max_daily_drawdown: u64,
    pub trades_blocked: u64,
}

/// The latch and its metadata. Drawdowns and risks are counted in millionths of a percent.
pub struct KillSwitch {
    pub max_daily_drawdown: u64,
    pub max_risk_per_trade: u64,
    pub current_drawdown: u64,
    pub is_halted: bool,
    pub activated_at: Option<i64>,
    pub reason: Option<String>,
    pub trades_blocked: u64,
}

pub open spec fn drawdown_alert_text(dd: u64, max: u64) -> Seq<char> {
    "Drawdown "@ + fixed2_text(dd as nat) + "% >= seuil "@ + fixed2_text(max as nat) + "%"@
}

pub open spec fn drawdown_halt_reason() -> Seq<char> {
    "Drawdown journalier maximal atteint"@
}

pub open spec fn manual_shutdown_reason() -> Seq<char> {
    "Arrêt d'urgence manuel (force_shutdown)"@
}

impl KillSwitchStatus {
    /// The snapshot reports every field of `ks`.
    pub open spec fn reports(self, ks: KillSwitch) -> bool {
        &&& self.is_active == ks.is_halted
        &&& self.activated_at == ks.activated_at
        &&& self.reason == ks.reason
        &&& self.current_drawdown == ks.current_drawdown
        &&& self.max_daily_drawdown == ks.max_daily_drawdown
        &&& self.trades_blocked == ks.trades_blocked
    }
}

impl KillSwitch {
    /// `self` is `old` after `reset`: open, with no metadata, no drawdown and no blocked trade,
    /// and the same limits.
    pub open spec fn is_reset_of(self, old: KillSwitch) -> bool {
        &&& !self.is_halted
        &&& self.activated_at is None
        &&& self.reason is None
        &&& self.current_drawdown == 0
        &&& self.trades_blocked == 0
        &&& self.max_daily_drawdown == old.max_daily_drawdown
        &&& self.max_risk_per_trade == old.max_risk_per_trade
    }

    /// The latch is set exactly when it carries an activation time and a reason.
    pub open spec fn wf(&self) -> bool {
        &&& self.is_halted == self.activated_at is Some
        &&& self.is_halted == self.reason is Some
    }

    /// A switch with the given drawdown limit and the default per-trade risk limit of 1 %.
    pub fn new(max_drawdown: u64) -> (r: Self)
        ensures
            r.wf(),
            !r.is_halted,
            r.max_daily_drawdown == max_drawdown,
            r.max_risk_per_trade == 1_000_000,
            r.current_drawdown == 0,
            r.trades_blocked == 0,
    {
        Self::with_limits(max_drawdown, 1_000_000)
    }

    /// A switch with the policy's drawdown and per-trade risk limits.
    pub fn with_limits(max_drawdown: u64, max_risk: u64) -> (r: Self)
        ensures
            r.wf(),
            !r.is_halted,
            r.max_daily_drawdown == max_drawdown,
            r.max_risk_per_trade == max_risk,
            r.current_drawdown == 0,
            r.trades_blocked == 0,
    {
        KillSwitch {
            max_daily_drawdown: max_drawdown,
            max_risk_per_trade: max_risk,
            current_drawdown: 0,
            is_halted: false,
            activated_at: None,
            reason: None,
            trades_blocked: 0,
        }
    }

    /// Whether trading is blocked.
    pub fn is_active(&self) -> (r: bool)
        ensures
            r == self.is_halted,
    {
        self.is_halted
    }

    /// Latches the switch at time `now`. A second activation keeps the first time and
    /// replaces the reason.
    pub fn activate_at(&mut self, reason: &str, now: i64)
        requires
            old(self).wf(),
        ensures
            final(self).wf(),
            final(self).is_halted,
            final(self).activated_at == (if old(self).is_halted {
                old(self).activated_at
            } else {
                Some(now)
            }),
            final(self).reason.unwrap()@ == reason@,
            final(self).current_drawdown == old(self).current_drawdown,
            final(self).max_daily_drawdown == old(self).max_daily_drawdown,
            final(self).max_risk_per_trade == old(self).max_risk_per_trade,
            final(self).trades_blocked == old(self).trades_blocked,
    {
        if !self.is_halted {
            self.activated_at = Some(now);
        }
        self.is_halted = true;
        self.reason = Some(text_of(reason));
    }

    /// Latches the switch now.
    pub fn activate(&mut self, reason: &str)
        requires
            old(self).wf(),
        ensures
            final(self).wf(),
            final(self).is_halted,
            old(self).is_halted ==> final(self).activated_at == old(self).activated_at,
            final(self).reason.unwrap()@ == reason@,
            final(self).current_drawdown == old(self).current_drawdown,
            final(self).max_daily_drawdown == old(self).max_daily_drawdown,
            final(self).max_risk_per_trade == old(self).max_risk_per_trade,
            final(self).trades_blocked == old(self).trades_blocked,
    {
        let now = now_unix_seconds();
        self.activate_at(reason, now);
    }

    /// Manual emergency stop.
    pub fn force_shutdown(&mut self)
        requires
            old(self).wf(),
        ensures
            final(self).wf(),
            final(self).is_halted,
            final(self).reason.unwrap()@ == manual_shutdown_reason(),
            final(self).trades_blocked == old(self).trades_blocked,
    {
        self.activate("Arrêt d'urgence manuel (force_shutdown)");
    }

    /// Decides on a trade at time `now`: blocked while latched (counting the block),
    /// refused above the per-trade risk limit, and latched on the spot when the drawdown
    /// has reached its limit. `_amount` plays no part in the decision.
    pub fn intercept_request_at(&mut self, _amount: u64, risk_percent: u64, now: i64) -> (r: bool)
        requires
            old(self).wf(),
        ensures
            final(self).wf(),
            r == (!old(self).is_halted && risk_percent <= old(self).max_risk_per_trade
                && old(self).current_drawdown < old(self).max_daily_drawdown),
            old(self).is_halted ==> final(self).trades_blocked == (if old(self).trades_blocked
                < u64::MAX {
                (old(self).trades_blocked + 1) as u64
            } else {
                old(self).trades_blocked
            }) && final(self).activated_at == old(self).activated_at && final(self).reason
                == old(self).reason,
            !old(self).is_halted ==> final(self).trades_blocked == old(self).trades_blocked,
            !old(self).is_halted && risk_percent <= old(self).max_risk_per_trade
                && old(self).current_drawdown >= old(self).max_daily_drawdown ==> final(self).is_halted
                && final(self).activated_at == Some(now) && final(self).reason.unwrap()@
                == drawdown_halt_reason(),
            !old(self).is_halted && !(risk_percent <= old(self).max_risk_per_trade
                && old(self).current_drawdown >= old(self).max_daily_drawdown) ==> !final(self).is_halted,
            final(self).is_halted == (old(self).is_halted || (risk_percent
                <= old(self).max_risk_per_trade && old(self).current_drawdown
                >= old(self).max_daily_drawdown)),
            !final(self).is_halted ==> final(self).activated_at == old(self).activated_at
                && final(self).reason == old(self).reason,
            final(self).current_drawdown == old(self).current_drawdown,
            final(self).max_daily_drawdown == old(self).max_daily_drawdown,
            final(self).max_risk_per_trade == old(self).max_risk_per_trade,
    {
        if self.is_halted {
            if self.trades_blocked < u64::MAX {
                self.trades_blocked = self.trades_blocked + 1;
            }
            return false;
        }
        if risk_percent > self.max_risk_per_trade {
            return false;
        }
        if self.current_drawdown >= self.max_daily_drawdown {
            self.activate_at("Drawdown journalier maximal atteint", now);
            return false;
        }
        true
    }

    /// Decides on a trade now; see `intercept_request_at`.
    pub fn intercept_request(&mut self, amount: u64, risk_percent: u64) -> (r: bool)
        requires
            old(self).wf(),
        ensures
            final(self).wf(),
            r == (!old(self).is_halted && risk_percent <= old(self).max_risk_per_trade
                && old(self).current_drawdown < old(self).max_daily_drawdown),
            final(self).is_halted == (old(self).is_halted || (risk_percent
                <= old(self).max_risk_per_trade && old(self).current_drawdown
                >= old(self).max_daily_drawdown)),
            old(self).is_halted ==> final(self).trades_blocked == (if old(self).trades_blocked
                < u64::MAX {
                (old(self).trades_blocked + 1) as u64
            } else {
                old(self).trades_blocked
            }),
            old(self).is_halted ==> final(self).activated_at == old(self).activated_at
                && final(self).reason == old(self).reason,
            !old(self).is_halted ==> final(self).trades_blocked == old(self).trades_blocked,
            !old(self).is_halted && risk_percent <= old(self).max_risk_per_trade
                && old(self).current_drawdown >= old(self).max_daily_drawdown ==> final(self).activated_at
                is Some && final(self).reason.unwrap()@ == drawdown_halt_reason(),
            !final(self).is_halted ==> final(self).activated_at == old(self).activated_at
                && final(self).reason == old(self).reason,
            final(self).current_drawdown == old(self).current_drawdown,
            final(self).max_daily_drawdown == old(self).max_daily_drawdown,
            final(self).max_risk_per_trade == old(self).max_risk_per_trade,
    {
        let now = now_unix_seconds();
        self.intercept_request_at(amount, risk_percent, now)
    }

    /// Records the observed drawdown at time `now`, latching the switch when it reaches the limit.
    pub fn update_drawdown_at(&mut self, drawdown_percent: u64, now: i64)
        requires
            old(self).wf(),
        ensures
            final(self).wf(),
            final(self).current_drawdown == drawdown_percent,
            final(self).is_halted == (old(self).is_halted || drawdown_percent
                >= old(self).max_daily_drawdown),
            old(self).is_halted || drawdown_percent < old(self).max_daily_drawdown ==> final(self).activated_at == old(self).activated_at && final(self).reason == old(self).reason,
            !old(self).is_halted && drawdown_percent >= old(self).max_daily_drawdown ==> final(self).activated_at == Some(now) && final(self).reason.unwrap()@ == drawdown_alert_text(
                drawdown_percent,
                old(self).max_daily_drawdown,
            ),
            final(self).trades_blocked == old(self).trades_blocked,
            final(self).max_daily_drawdown == old(self).max_daily_drawdown,
            final(self).max_risk_per_trade == old(self).max_risk_per_trade,
    {
        self.current_drawdown = drawdown_percent;
        if drawdown_percent >= self.max_daily_drawdown && !self.is_halted {
            let mut msg = text_of("Drawdown ");
            push_fixed2(&mut msg, drawdown_percent);
            push_text(&mut msg, "% >= seuil ");
            push_fixed2(&mut msg, self.max_daily_drawdown);
            push_text(&mut msg, "%");
            self.activate_at(msg.as_str(), now);
        }
    }

    /// Records the observed drawdown now; see `update_drawdown_at`.
    pub fn update_drawdown(&mut self, drawdown_percent: u64)
        requires
            old(self).wf(),
        ensures
            final(self).wf(),
            final(self).current_drawdown == drawdown_percent,
            final(self).is_halted == (old(self).is_halted || drawdown_percent
                >= old(self).max_daily_drawdown),
            old(self).is_halted || drawdown_percent < old(self).max_daily_drawdown ==> final(self).activated_at == old(self).activated_at && final(self).reason == old(self).reason,
            !old(self).is_halted && drawdown_percent >= old(self).max_daily_drawdown ==> final(self).activated_at
                is Some && final(self).reason.unwrap()@ == drawdown_alert_text(
                drawdown_percent,
                old(self).max_daily_drawdown,
            ),
            final(self).trades_blocked == old(self).trades_blocked,
            final(self).max_daily_drawdown == old(self).max_daily_drawdown,
            final(self).max_risk_per_trade == old(self).max_risk_per_trade,
    {
        let now = now_unix_seconds();
        self.update_drawdown_at(drawdown_percent, now);
    }

    /// Clears the latch, its metadata, the drawdown and the blocked-trade count.
    pub fn reset(&mut self)
        ensures
            final(self).wf(),
            final(self).is_reset_of(*old(self)),
    {
        self.is_halted = false;
        self.activated_at = None;
        self.reason = None;
        self.current_drawdown = 0;
        self.trades_blocked = 0;
    }

    /// Resets the switch when it has been latched for at least a day at time `now`.
    pub fn check_auto_reset_at(&mut self, now: i64)
        requires
            old(self).wf(),
        ensures
            final(self).wf(),
            (match old(self).activated_at {
                Some(a) => now - a >= AUTO_RESET_SECONDS,
                None => false,
            }) ==> final(self).is_reset_of(*old(self)),
            !(match old(self).activated_at {
                Some(a) => now - a >= AUTO_RESET_SECONDS,
                None => false,
            }) ==> *final(self) == *old(self),
    {
        if let Some(activated) = self.activated_at {
            if (now as i128) - (activated as i128) >= AUTO_RESET_SECONDS as i128 {
                self.reset();
            }
        }
    }

    /// Resets the switch when it has been latched for at least a day; see `check_auto_reset_at`.
    pub fn check_auto_reset(&mut self)
        requires
            old(self).wf(),
        ensures
            final(self).wf(),
            *final(self) == *old(self) || (old(self).is_halted && final(self).is_reset_of(*old(self))),
    {
        let now = now_unix_seconds();
        self.check_auto_reset_at(now);
    }

    /// A copy of the switch's state.
    pub fn get_status(&self) -> (r: KillSwitchStatus)
        ensures
            r.reports(*self),
    {
        let reason = match &self.reason {
            Some(s) => Some(s.clone()),
            None => None,
        };
        KillSwitchStatus {
            is_active: self.is_halted,
            activated_at: self.activated_at,
            reason,
            current_drawdown: self.current_drawdown,
            max_daily_drawdown: self.max_daily_drawdown,
            trades_blocked: self.trades_blocked,
        }
    }
}

} // verus!
