//! The wall clock, as milliseconds since the Unix epoch.

use vstd::prelude::*;

verus! {

/// Reads the current time through `chrono::Utc::now().timestamp_millis()`.
///
/// Nothing is claimed of the value: two reads may give any two numbers.
/// `chrono` itself stops the process when the system clock stands before
/// 1970.
#[verifier::external_body]
pub(crate) fn now_millis() -> (now: i64) {
    chrono::Utc::now().timestamp_millis()
}

} // verus!
