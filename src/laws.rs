//! The policy: fundamental laws and the rules of engagement that the validator enforces.
use crate::text::text_of;
use vstd::prelude::*;

verus! {

/// Why a policy document could not be loaded.
#[derive(Debug, Clone)]
pub enum ConstitutionError {
    FileNotFound(String),
    ParseError(String),
    IoError(String),
    InvalidHash,
}

/// One fundamental law.
#[derive(Debug, Clone)]
pub struct Law {
    pub id: u8,
    pub name: String,
    pub description: String,
    pub priority: u8,
    pub enforcement: String,
}

/// Trading rules of engagement. Percentages are counted in millionths of a percent.
#[derive(Debug, Clone, Copy, PartialEq, Eq)]
pub struct TradingRoe {
    pub max_risk_per_trade_percent: u64,
    pub max_daily_drawdown_percent: u64,
    pub max_total_drawdown_percent: u64,
    pub max_concurrent_positions: u32,
    pub require_stop_loss: bool,
    pub anti_tilt_consecutive_losses: u32,
    pub anti_tilt_duration_hours: u32,
    pub news_filter_minutes: u32,
}

/// Security rules of engagement. The temperature is counted in millionths of a degree.
#[derive(Debug, Clone, Copy, PartialEq, Eq)]
pub struct SecurityRoe {
    pub max_login_attempts: u32,
    pub lockout_duration_minutes: u32,
    pub gpu_temp_critical_celsius: u64,
}

/// A policy snapshot.
#[derive(Debug, Clone)]
pub struct Constitution {
    pub version: String,
    pub last_updated: String,
    pub laws: Vec<Law>,
    pub trading: TradingRoe,
    pub security: SecurityRoe,
}

pub open spec fn default_trading_spec() -> TradingRoe {
    TradingRoe {
        max_risk_per_trade_percent: 1_000_000,
        max_daily_drawdown_percent: 4_000_000,
        max_total_drawdown_percent: 8_000_000,
        max_concurrent_positions: 3,
        require_stop_loss: true,
        anti_tilt_consecutive_losses: 2,
        anti_tilt_duration_hours: 24,
        news_filter_minutes: 30,
    }
}

pub open spec fn default_security_spec() -> SecurityRoe {
    SecurityRoe { max_login_attempts: 3, lockout_duration_minutes: 30, gpu_temp_critical_celsius: 90_000_000 }
}

impl TradingRoe {
    /// The trading limits used when the policy document gives none.
    pub fn default() -> (r: TradingRoe)
        ensures
            r == default_trading_spec(),
    {
        TradingRoe {
            max_risk_per_trade_percent: 1_000_000,
            max_daily_drawdown_percent: 4_000_000,
            max_total_drawdown_percent: 8_000_000,
            max_concurrent_positions: 3,
            require_stop_loss: true,
            anti_tilt_consecutive_losses: 2,
            anti_tilt_duration_hours: 24,
            news_filter_minutes: 30,
        }
    }
}

impl SecurityRoe {
    /// The security limits used when the policy document gives none.
    pub fn default() -> (r: SecurityRoe)
        ensures
            r == default_security_spec(),
    {
        SecurityRoe { max_login_attempts: 3, lockout_duration_minutes: 30, gpu_temp_critical_celsius: 90_000_000 }
    }
}

impl Law {
    fn make(id: u8, name: &str, description: &str, priority: u8, enforcement: &str) -> (r: Law)
        ensures
            r.id == id,
            r.name@ == name@,
            r.description@ == description@,
            r.priority == priority,
            r.enforcement@ == enforcement@,
    {
        Law {
            id,
            name: text_of(name),
            description: text_of(description),
            priority,
            enforcement: text_of(enforcement),
        }
    }
}

impl Constitution {
    /// The built-in policy: three laws, default trading and security limits.
    pub fn default() -> (r: Constitution)
        ensures
            r.version@ == "1.0.0"@,
            r.last_updated@ == "2026-02-05"@,
            r.laws@.len() == 3,
            r.laws@[0].id == 0 && r.laws@[0].priority == 100 && r.laws@[0].name@ == "Intégrité Systémique"@
                && r.laws@[0].enforcement@ == "hardware"@,
            r.laws@[1].id == 1 && r.laws@[1].priority == 95 && r.laws@[1].name@ == "Épanouissement Humain"@
                && r.laws@[1].enforcement@ == "software"@,
            r.laws@[2].id == 2 && r.laws@[2].priority == 90 && r.laws@[2].name@ == "Protection du Capital"@
                && r.laws@[2].enforcement@ == "kernel"@,
            r.trading == default_trading_spec(),
            r.security == default_security_spec(),
    {
        let mut laws: Vec<Law> = Vec::new();
        laws.push(
            Law::make(0, "Intégrité Systémique", "Préserver l'intégrité de THE HIVE", 100, "hardware"),
        );
        laws.push(
            Law::make(1, "Épanouissement Humain", "Bien-être du Maître prioritaire", 95, "software"),
        );
        laws.push(
            Law::make(2, "Protection du Capital", "Ne jamais risquer plus que les limites", 90, "kernel"),
        );
        Constitution {
            version: text_of("1.0.0"),
            last_updated: text_of("2026-02-05"),
            laws,
            trading: TradingRoe::default(),
            security: SecurityRoe::default(),
        }
    }

    /// A policy from a parsed document; a missing `trading` or `security` section takes the defaults.
    pub fn from_sections(
        version: String,
        last_updated: String,
        laws: Vec<Law>,
        trading: Option<TradingRoe>,
        security: Option<SecurityRoe>,
    ) -> (r: Constitution)
        ensures
            r.version == version,
            r.last_updated == last_updated,
            r.laws == laws,
            r.trading == (match trading {
                Some(t) => t,
                None => default_trading_spec(),
            }),
            r.security == (match security {
                Some(s) => s,
                None => default_security_spec(),
            }),
    {
        let trading = match trading {
            Some(t) => t,
            None => TradingRoe::default(),
        };
        let security = match security {
            Some(s) => s,
            None => SecurityRoe::default(),
        };
        Constitution { version, last_updated, laws, trading, security }
    }

    /// The policy in force after a load attempt: the loaded one, or the built-in defaults.
    pub fn or_default(loaded: Result<Constitution, ConstitutionError>) -> (r: Constitution)
        ensures
            loaded is Ok ==> r == loaded->Ok_0,
            loaded is Err ==> r.trading == default_trading_spec() && r.security == default_security_spec()
                && r.laws@.len() == 3,
    {
        match loaded {
            Ok(c) => c,
            Err(_) => Constitution::default(),
        }
    }

    /// A trade risk is allowed when it does not exceed the per-trade maximum.
    pub fn is_trade_risk_allowed(&self, risk_percent: u64) -> (r: bool)
        ensures
            r == (risk_percent <= self.trading.max_risk_per_trade_percent),
    {
        risk_percent <= self.trading.max_risk_per_trade_percent
    }

    /// The daily drawdown permits trading while strictly below the limit.
    pub fn is_daily_drawdown_ok(&self, dd_percent: u64) -> (r: bool)
        ensures
            r == (dd_percent < self.trading.max_daily_drawdown_percent),
    {
        dd_percent < self.trading.max_daily_drawdown_percent
    }

    /// A new position may be opened while the count is strictly below the cap.
    pub fn can_open_position(&self, current_count: u32) -> (r: bool)
        ensures
            r == (current_count < self.trading.max_concurrent_positions),
    {
        current_count < self.trading.max_concurrent_positions
    }

    /// The first law with the given id.
    pub fn get_law(&self, id: u8) -> (r: Option<&Law>)
        ensures
            r is None <==> forall|i: int| 0 <= i < self.laws@.len() ==> self.laws@[i].id != id,
            r is Some ==> exists|i: int|
                0 <= i < self.laws@.len() && *r->Some_0 == self.laws@[i] && (forall|j: int|
                    0 <= j < i ==> self.laws@[j].id != id),
    {
        let mut i: usize = 0;
        while i < self.laws.len()
            invariant
                i <= self.laws@.len(),
                forall|j: int| 0 <= j < i ==> self.laws@[j].id != id,
            decreases self.laws@.len() - i,
        {
            if self.laws[i].id == id {
                return Some(&self.laws[i]);
            }
            i = i + 1;
        }
        None
    }
}

/// Decides when the policy file is read again: whenever its modification time differs
/// from that of the last successful load. A failed load is retried at the next poll.
pub struct PolicyWatcher {
    pub last_modified: Option<u64>,
}

impl PolicyWatcher {
    /// A watcher that last loaded the file at `modified` (milliseconds since the Unix epoch).
    pub fn new(modified: Option<u64>) -> (r: Self)
        ensures
            r.last_modified == modified,
    {
        PolicyWatcher { last_modified: modified }
    }

    /// Whether the file changed since the last successful load.
    pub fn should_reload(&self, current: Option<u64>) -> (r: bool)
        ensures
            r == (current != self.last_modified),
    {
        match (current, self.last_modified) {
            (Some(a), Some(b)) => a != b,
            (None, None) => false,
            _ => true,
        }
    }

    /// Notes a successful load of the file at modification time `current`.
    pub fn mark_loaded(&mut self, current: Option<u64>)
        ensures
            final(self).last_modified == current,
    {
        self.last_modified = current;
    }
}

} // verus!
