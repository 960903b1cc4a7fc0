//! The codec's one environmental dependency: reading the host process's
//! current local UTC offset.

use vstd::prelude::*;

verus! {

/// Relies on `chrono::Local::now` and `chrono::FixedOffset::local_minus_utc`:
/// the host's current local offset from UTC, in seconds east of UTC. The
/// result depends on the moment of the call and the host's timezone
/// database, so nothing is promised of its value beyond chrono's invariant
/// that every `FixedOffset` holds strictly between -86400 and 86400 seconds.
#[verifier::external_body]
pub(crate) fn current_local_offset_seconds() -> (r: i32)
    ensures
        -86400 < r < 86400,
{
    chrono::Local::now().offset().local_minus_utc()
}

} // verus!
