//! Wall-clock time, read through chrono.

use vstd::prelude::*;

verus! {

/// Calls `chrono::Utc::now` and converts the instant with
/// `DateTime::timestamp_millis`: milliseconds since the Unix epoch.
/// Not proved. chrono takes the time from the system clock as a duration
/// since the epoch and panics where the clock stands before it, so a
/// reading that comes back is never negative; that much is claimed.
/// Nothing is claimed of how two readings compare: the clock may be set
/// back between them.
#[verifier::external_body]
pub(crate) fn unix_millis() -> (now: i64)
    ensures
        0 <= now,
{
    chrono::Utc::now().timestamp_millis()
}

} // verus!
