//! The wall clock.

use vstd::prelude::*;

verus! {

/// Reads the system clock through `chrono::Utc::now` and gives the time as
/// `DateTime::timestamp_millis` counts it: the milliseconds since the
/// start of 1970, UTC. Nothing is claimed of the value: two readings may
/// be equal, and a clock that is set back makes the later one smaller.
/// `Utc::now` does not return where the clock stands before 1970.
#[verifier::external_body]
pub(crate) fn now_millis() -> (now: i64) {
    chrono::Utc::now().timestamp_millis()
}

} // verus!
