//! The system clock.

use vstd::prelude::*;

verus! {

/// `SystemTime::now().duration_since(UNIX_EPOCH)` in whole seconds, or
/// `None` when the clock is set before the Unix epoch (the error of
/// `duration_since`).  Nothing is promised of the value: it is the clock.
#[verifier::external_body]
pub(crate) fn unix_now_secs() -> (t: Option<u64>) {
    match std::time::SystemTime::now().duration_since(std::time::UNIX_EPOCH) {
        Ok(d) => Some(d.as_secs()),
        Err(_) => None,
    }
}

} // verus!
