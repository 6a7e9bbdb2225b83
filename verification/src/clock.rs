//! The wall clock, as milliseconds since the Unix epoch.

use vstd::prelude::*;

verus! {

/// Relies on chrono::Utc::now: the current wall-clock time in milliseconds
/// since the Unix epoch. Nothing is assumed of the value: clocks can move
/// either way between two calls. `Utc::now` panics on a system clock set
/// before the Unix epoch — an environmental failure, not an input.
#[verifier::external_body]
pub fn now_millis() -> (r: i64) {
    chrono::Utc::now().timestamp_millis()
}

} // verus!
