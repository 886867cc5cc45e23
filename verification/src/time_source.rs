//! The one place the library touches the wall clock.
use vstd::prelude::*;

verus! {

/// Relies on std::time::SystemTime::now: the current wall-clock time.
/// Returns whole nanoseconds since the UNIX epoch, saturated to u64; a clock
/// set before the epoch reads as 0. No two calls are assumed related: every
/// function that consumes a reading states what holds for any value.
#[verifier::external_body]
pub fn now_ns() -> u64 {
    match std::time::SystemTime::now().duration_since(std::time::UNIX_EPOCH) {
        Ok(d) => {
            let n = d.as_nanos();
            if n > u64::MAX as u128 { u64::MAX } else { n as u64 }
        }
        Err(_) => 0,
    }
}

} // verus!
