//! Shared configuration and event types of the wider system.
use vstd::prelude::*;

verus! {

/// Law 0 (system integrity) settings. The temperature is counted in millionths of a degree.
#[derive(Debug, Clone)]
pub struct LawZeroConfig {
    pub max_gpu_temp_celsius: u64,
    pub temp_critical_duration_secs: u32,
    pub kernel_hash: String,
}

impl LawZeroConfig {
    /// 90 °C for at most 5 s, no kernel hash on record.
    pub fn default() -> (r: Self)
        ensures
            r.max_gpu_temp_celsius == 90_000_000,
            r.temp_critical_duration_secs == 5,
            r.kernel_hash@.len() == 0,
    {
        LawZeroConfig {
            max_gpu_temp_celsius: 90_000_000,
            temp_critical_duration_secs: 5,
            kernel_hash: String::new(),
        }
    }
}

/// Law 2 (capital protection) settings. Percentages are counted in millionths of a percent.
#[derive(Debug, Clone, Copy, PartialEq, Eq)]
pub struct LawTwoConfig {
    pub max_daily_drawdown_percent: u64,
    pub max_total_drawdown_percent: u64,
    pub max_single_trade_risk_percent: u64,
    pub max_open_positions: u32,
}

impl LawTwoConfig {
    /// 4 % daily and 8 % total drawdown, 1 % risk per trade, 3 open positions.
    pub fn default() -> (r: Self)
        ensures
            r.max_daily_drawdown_percent == 4_000_000,
            r.max_total_drawdown_percent == 8_000_000,
            r.max_single_trade_risk_percent == 1_000_000,
            r.max_open_positions == 3,
    {
        LawTwoConfig {
            max_daily_drawdown_percent: 4_000_000,
            max_total_drawdown_percent: 8_000_000,
            max_single_trade_risk_percent: 1_000_000,
            max_open_positions: 3,
        }
    }
}

/// Trading rules of engagement around news, tilt and slippage.
#[derive(Debug, Clone, Copy, PartialEq, Eq)]
pub struct RoeTradingConfig {
    pub news_filter_minutes: u32,
    pub anti_tilt_loss_count: u32,
    pub anti_tilt_duration_hours: u32,
    pub max_slippage_points: i32,
}

impl RoeTradingConfig {
    /// 30 minutes around news, 2 losses trigger a 24 h pause, 5 points of slippage.
    pub fn default() -> (r: Self)
        ensures
            r.news_filter_minutes == 30,
            r.anti_tilt_loss_count == 2,
            r.anti_tilt_duration_hours == 24,
            r.max_slippage_points == 5,
    {
        RoeTradingConfig {
            news_filter_minutes: 30,
            anti_tilt_loss_count: 2,
            anti_tilt_duration_hours: 24,
            max_slippage_points: 5,
        }
    }
}

/// What the kill-switch does when it fires.
#[derive(Debug, Clone, Copy, PartialEq, Eq)]
pub enum KillSwitchAction {
    CloseAllPositions,
    KillMt5Process,
    ShutdownTrading,
    EmergencyNotification,
}

/// GPU temperature bands.
#[derive(Debug, Clone, Copy, PartialEq, Eq)]
pub enum ThermalLevel {
    Normal,
    Warning,
    Critical,
    Emergency,
}

/// Kinds of security event.
#[derive(Debug, Clone, Copy, PartialEq, Eq)]
pub enum SecurityEventType {
    IntrusionAttempt,
    AuthenticationFailure,
    SuspiciousConnection,
    MalwareDetected,
    BruteForceAttempt,
    PortScan,
    UnauthorizedAccess,
    DataExfiltration,
}

/// Severity of a security event.
#[derive(Debug, Clone, Copy, PartialEq, Eq)]
pub enum Severity {
    Info,
    Low,
    Medium,
    High,
    Critical,
}

/// Response taken to a security event.
#[derive(Debug, Clone, Copy, PartialEq, Eq)]
pub enum SecurityAction {
    Logged,
    Blocked { duration_secs: u64 },
    Quarantined,
    Alerted,
    ProcessKilled { pid: u32 },
}

/// GPU readings. Temperature, power and percentages are counted in millionths;
/// `timestamp` is RFC 3339 text.
#[derive(Debug, Clone)]
pub struct GpuMetrics {
    pub temperature_celsius: u64,
    pub power_watts: u64,
    pub memory_used_mb: u64,
    pub memory_total_mb: u64,
    pub utilization_percent: u64,
    pub fan_speed_percent: Option<u64>,
    pub timestamp: String,
}

impl GpuMetrics {
    /// Whether the temperature exceeds the threshold (in millionths of a degree).
    pub fn is_temperature_critical(&self, threshold: u64) -> (r: bool)
        ensures
            r == (self.temperature_celsius > threshold),
    {
        self.temperature_celsius > threshold
    }
}

} // verus!
