//! Wall-clock millisecond timestamps.

use vstd::prelude::*;

verus! {

/// Relies on std::time::SystemTime::now and Duration::as_millis: the result
/// depends on the clock, so nothing is promised of the value.
#[verifier::external_body]
fn wall_clock_millis() -> u64 {
    std::time::SystemTime::now()
        .duration_since(std::time::UNIX_EPOCH)
        .unwrap()
        .as_millis()
        .try_into()
        .unwrap()
}

/// Current wall-clock time as milliseconds since the Unix epoch. The clock
/// is an outside collaborator: no two calls are related, and callers state
/// their guarantees over whatever value it hands them.
pub fn get_time() -> u64 {
    wall_clock_millis()
}

} // verus!
