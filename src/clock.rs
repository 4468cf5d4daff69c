//! Wall-clock time and fresh identifiers, from outside crates.
use vstd::prelude::*;

verus! {

/// Relies on `chrono::Utc::now` and `DateTime::timestamp_millis`: milliseconds
/// since the Unix epoch. Nothing is promised of the value.
#[verifier::external_body]
pub fn clock_millis() -> (r: i64) {
    chrono::Utc::now().timestamp_millis()
}

/// The current time in milliseconds, with times before the epoch read as 0.
pub fn now_millis() -> (r: u64) {
    let t = clock_millis();
    if t < 0 {
        0
    } else {
        t as u64
    }
}

/// Relies on `uuid::Uuid::new_v4`: a random identifier in its hyphenated form.
/// Nothing is promised of the value.
#[verifier::external_body]
pub fn fresh_id() -> (r: String) {
    uuid::Uuid::new_v4().to_string()
}

} // verus!
