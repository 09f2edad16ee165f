use vstd::prelude::*;
use std::time::{Duration, SystemTime, SystemTimeError, UNIX_EPOCH};

verus! {

/// `std::time::SystemTime`: an instant of the system clock. Carried through
/// unread.
#[verifier::external_type_specification]
#[verifier::external_body]
pub struct ExSystemTime(SystemTime);

/// `SystemTime::now`: the current reading of the system clock. Nothing is
/// claimed of the reading.
#[verifier::external_body]
pub(crate) fn current_system_time() -> (now: SystemTime) {
    SystemTime::now()
}

/// `SystemTime::duration_since`, measured against `UNIX_EPOCH`: the time
/// elapsed since the epoch, or an error when the instant lies before it.
/// Nothing is claimed of which of the two comes back.
#[verifier::external_body]
pub(crate) fn elapsed_since_epoch(instant: &SystemTime) -> (elapsed: std::result::Result<
    Duration,
    SystemTimeError,
>) {
    instant.duration_since(UNIX_EPOCH)
}

/// `Duration::as_secs`: the whole seconds of a duration. Nothing is claimed of
/// the number.
#[verifier::external_body]
pub(crate) fn whole_seconds(elapsed: &Duration) -> (seconds: u64) {
    elapsed.as_secs()
}

/// Reads the system clock once and gives the whole seconds of the time elapsed
/// since the Unix epoch, or the error of that measurement. Nothing is known of
/// the outcome: it is whatever the clock gives.
pub(crate) fn seconds_since_epoch() -> (reading: std::result::Result<u64, SystemTimeError>) {
    let now = current_system_time();
    match elapsed_since_epoch(&now) {
        Ok(elapsed) => Ok(whole_seconds(&elapsed)),
        Err(e) => Err(e),
    }
}

} // verus!
