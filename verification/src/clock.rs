//! The wall clock, read in milliseconds.

use vstd::prelude::*;

verus! {

/// Milliseconds since the Unix epoch, from `std::time::SystemTime::now`.
/// Nothing is promised of the value: it is whatever the clock shows.
#[verifier::external_body]
pub(crate) fn now_ms() -> u64 {
    match std::time::SystemTime::now().duration_since(std::time::UNIX_EPOCH) {
        Ok(d) => d.as_millis() as u64,
        Err(_) => 0,
    }
}

/// Time elapsed between `start` and `now`, as `Instant::elapsed` reports it:
/// zero when the clock reads earlier than `start`.
pub open spec fn elapsed(start: u64, now: u64) -> int {
    if now >= start {
        now - start
    } else {
        0
    }
}

} // verus!
