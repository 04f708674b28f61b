//! The wall clock.

use vstd::prelude::*;

verus! {

/// Trusted: `SystemTime::now` read against the Unix epoch gives the
/// milliseconds that have passed since, and nothing where the clock stands
/// before the epoch. Nothing is promised of the value: two calls may differ,
/// and callers state what holds for every reading.
#[verifier::external_body]
pub(crate) fn since_epoch() -> (r: Option<u64>) {
    std::time::SystemTime::now()
        .duration_since(std::time::UNIX_EPOCH)
        .ok()
        .map(|d| d.as_millis() as u64)
}

/// A reading of the clock in milliseconds, with 0 standing in for a clock
/// that stands before the epoch.
pub fn reading_or_zero(reading: Option<u64>) -> (r: u64)
    ensures
        r == match reading {
            Some(t) => t,
            None => 0,
        },
{
    match reading {
        Some(t) => t,
        None => 0,
    }
}

/// The milliseconds that have passed since the Unix epoch, or 0 where the
/// clock stands before it.
pub(crate) fn unix_millis() -> (r: u64) {
    reading_or_zero(since_epoch())
}

} // verus!
