//! The one clock read of this crate.
//!
//! Timestamps and durations are whole seconds: a timestamp counts seconds
//! since the Unix epoch, a duration counts seconds of validity.

use vstd::prelude::*;

verus! {

/// Read the wall clock.
///
/// Relies on std's `SystemTime::now`; `duration_since(UNIX_EPOCH)` and
/// `as_secs` only convert the reading to whole seconds since the Unix epoch,
/// 0 if the clock reads earlier than the epoch. Nothing can be promised of a
/// clock reading, so this has no contract: every caller must hold for every
/// value that comes back.
#[verifier::external_body]
pub fn now_unix_secs() -> u64 {
    match std::time::SystemTime::now().duration_since(std::time::UNIX_EPOCH) {
        Ok(d) => d.as_secs(),
        Err(_) => 0,
    }
}

} // verus!
