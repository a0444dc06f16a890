//! Access to the system clock, for stamping records on write.

use vstd::prelude::*;

verus! {

/// Relies on chrono's `Utc::now` and `DateTime::timestamp`: the current
/// time as whole seconds since the Unix epoch.  `Utc::now` panics on a
/// machine whose clock is set before the epoch, so a returned value is
/// never negative; nothing more can be promised of a clock reading.
#[verifier::external_body]
pub fn current_timestamp() -> (r: i64)
    ensures
        r >= 0,
{
    chrono::Utc::now().timestamp()
}

} // verus!
