//! The wall clock.

use vstd::prelude::*;

verus! {

/// Milliseconds since the Unix epoch, now (`chrono::Utc::now().timestamp_millis()`).
/// Nothing is stated of the value: it depends on the time of the call.
#[verifier::external_body]
pub(crate) fn current_time_millis() -> i64 {
    chrono::Utc::now().timestamp_millis()
}

} // verus!
