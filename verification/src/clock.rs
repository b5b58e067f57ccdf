//! The wall clock, as seconds since the Unix epoch.

use vstd::prelude::*;

verus! {

/// Relies on `chrono::Utc::now` and `chrono::DateTime::timestamp`: the
/// current wall-clock time, in whole seconds since the Unix epoch.
/// Nothing is assumed of the value — every decision that depends on it
/// is verified for every possible time.
#[verifier::external_body]
pub fn now_epoch() -> i64 {
    chrono::Utc::now().timestamp()
}

} // verus!
