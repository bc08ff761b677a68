//! A safety kernel for trading actions: policy laws, a trade validator, a latched
//! kill-switch, a hash-chained audit trail and the decision pipeline that ties them.
//!
//! Amounts, prices, volumes and percentages are fixed-point integers counted in
//! millionths, so that every decision is exact and the same on every platform.
pub mod audit;
pub mod clock;
pub mod hex;
pub mod ingress;
pub mod kernel;
pub mod kill_switch;
pub mod laws;
pub mod models;
pub mod protocols;
pub mod text;
pub mod validator;

pub use audit::AuditTrail;
pub use kill_switch::KillSwitch;
pub use laws::Constitution;
pub use validator::TradeValidator;
