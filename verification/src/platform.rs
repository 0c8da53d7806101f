//! The library's contact points with the clock and the random source.

use vstd::prelude::*;

verus! {

/// Calls `uuid::Uuid::new_v4()` and renders it with `to_string()`.
///
/// The UUID is random, so nothing is said of its characters; the
/// hyphenated form that `Display` produces is always 36 characters long.
#[verifier::external_body]
pub(crate) fn fresh_uuid() -> (s: String)
    ensures
        s@.len() == 36,
{
    uuid::Uuid::new_v4().to_string()
}

/// Calls `chrono::Utc::now()` and returns its `timestamp_millis()`:
/// the current time in milliseconds since the Unix epoch.
///
/// The result depends on the clock, so no clause states it.
#[verifier::external_body]
pub(crate) fn now_millis() -> (t: i64) {
    chrono::Utc::now().timestamp_millis()
}

/// Calls `chrono::Utc::now()` and returns its `timestamp_nanos_opt()`:
/// the current time in nanoseconds since the Unix epoch, or `None` when
/// that does not fit in an `i64` (after the year 2262).
///
/// The result depends on the clock, so no clause states it.
#[verifier::external_body]
pub(crate) fn now_nanos() -> (t: Option<i64>) {
    chrono::Utc::now().timestamp_nanos_opt()
}

} // verus!
