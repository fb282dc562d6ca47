//! The one clock read the engine makes.

use vstd::prelude::*;

verus! {

/// Relies on std's `SystemTime::now` for the current wall-clock time,
/// read as milliseconds since the Unix epoch; a clock standing before
/// the epoch reads as zero rather than failing. The value depends on the
/// clock, so nothing is promised of it: every caller treats any value as
/// a valid timestamp.
#[verifier::external_body]
pub(crate) fn now_millis() -> i64 {
    std::time::SystemTime::now()
        .duration_since(std::time::UNIX_EPOCH)
        .map(|d| d.as_millis() as i64)
        .unwrap_or(0)
}

} // verus!
