//! Wall-clock time for stamping newly created memos.

use vstd::prelude::*;

verus! {

/// Relies on chrono::Utc::now for the current wall-clock time, read as Unix
/// milliseconds.  Nothing is promised of the value: it depends on the
/// machine's clock, and every caller must hold for every outcome.
#[verifier::external_body]
pub(crate) fn now_timestamp_millis() -> i64 {
    chrono::Utc::now().timestamp_millis()
}

} // verus!
