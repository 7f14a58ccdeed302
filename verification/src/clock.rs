//! The trusted clock the store stamps write times from.

use vstd::prelude::*;

verus! {

/// Relies on chrono::Utc::now: reads the wall clock and reports it in
/// whole seconds since the Unix epoch. The result depends on when the
/// call runs, so nothing is promised of it; callers state what holds
/// whatever time came back.
#[verifier::external_body]
pub(crate) fn now_timestamp() -> i64 {
    chrono::Utc::now().timestamp()
}

} // verus!
