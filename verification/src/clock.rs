//! The wall clock, behind a trusted boundary.

use vstd::prelude::*;

verus! {

/// Relies on chrono::Utc::now: the current wall-clock time, as whole
/// seconds since the Unix epoch. The result depends on the machine's
/// clock, so nothing is promised of it; callers treat it as an
/// arbitrary stamp.
#[verifier::external_body]
pub(crate) fn now_secs() -> i64 {
    chrono::Utc::now().timestamp()
}

} // verus!
