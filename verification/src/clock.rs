//! The current time, in milliseconds, for the reception times of messages
//! and the last-seen times of aircraft.
use vstd::prelude::*;

verus! {

/// Wraps `std::time::SystemTime::now`: the current time in whole milliseconds
/// since the Unix epoch (0 if the clock is set before it). Nothing is stated
/// of the value: it depends on the clock.
#[verifier::external_body]
pub(crate) fn now_millis() -> u64 {
    match std::time::SystemTime::now().duration_since(std::time::UNIX_EPOCH) {
        Ok(elapsed) => elapsed.as_millis() as u64,
        Err(_) => 0,
    }
}

} // verus!
