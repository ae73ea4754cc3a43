//! The wall clock.

use vstd::prelude::*;

verus! {

/// Not verified: `chrono::Utc::now`, read through
/// `DateTime::timestamp_millis`. The result is the system clock's reading in
/// milliseconds since the epoch; nothing is promised of it, and two readings
/// may differ in either direction when the system clock is set. `chrono`
/// panics where the system clock stands before the epoch.
#[verifier::external_body]
pub(crate) fn now_millis() -> i64 {
    chrono::Utc::now().timestamp_millis()
}

} // verus!
