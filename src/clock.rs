//! What only the system can give: the current time and fresh identifiers.
use vstd::prelude::*;

verus! {

/// Relies on chrono::Utc::now and DateTime::timestamp: the current time, in whole
/// seconds since the Unix epoch.
#[verifier::external_body]
pub(crate) fn now_unix_seconds() -> (r: i64) {
    chrono::Utc::now().timestamp()
}

/// Relies on chrono::Utc::now and DateTime::to_rfc3339: the current time as RFC 3339 text.
#[verifier::external_body]
pub(crate) fn now_rfc3339() -> (r: String) {
    chrono::Utc::now().to_rfc3339()
}

/// Relies on uuid::Uuid::new_v4 and its hyphenated text form: a fresh random identifier.
#[verifier::external_body]
pub(crate) fn new_uuid_text() -> (r: String) {
    uuid::Uuid::new_v4().to_string()
}

} // verus!
