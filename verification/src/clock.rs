//! The process clock, read through the chrono crate.

use vstd::prelude::*;

verus! {

/// The current UTC time in whole milliseconds since the Unix epoch.
///
/// Relies on chrono's `Utc::now` together with `DateTime::timestamp_millis`.
/// The result depends on the machine's clock, so nothing is promised of it:
/// every caller states what holds of an arbitrary reading.
#[verifier::external_body]
pub(crate) fn now_utc_ms() -> i64 {
    chrono::Utc::now().timestamp_millis()
}

} // verus!
