//! Trusted boundary around the clock collaborator.

use vstd::prelude::*;

verus! {

/// Relies on chrono's `Utc::now` for the current UTC time as seconds since
/// the epoch.  The value depends on the moment of the call, so nothing is
/// promised of it.
#[verifier::external_body]
pub fn now_timestamp() -> i64 {
    chrono::Utc::now().timestamp()
}

} // verus!
