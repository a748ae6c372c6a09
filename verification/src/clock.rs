use vstd::prelude::*;

verus! {

/// Reads the wall clock through `std::time::SystemTime::now` and hands the
/// reading back as whole seconds since the Unix epoch (`duration_since` the
/// epoch, then `Duration::as_secs`); a clock set before the epoch reads as 0.
///
/// Nothing is claimed of the value: the clock may stand still, jump forward or
/// run backwards between two readings.
#[verifier::external_body]
pub(crate) fn unix_seconds() -> (now: u64) {
    match std::time::SystemTime::now().duration_since(std::time::UNIX_EPOCH) {
        Ok(since_epoch) => since_epoch.as_secs(),
        Err(_) => 0,
    }
}

} // verus!
