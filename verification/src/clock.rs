//! Access to the wall clock.

use vstd::prelude::*;

verus! {

/// Relies on `chrono::Utc::now` and `DateTime::timestamp`: the current wall
/// clock as whole unix seconds. The value depends on the machine's clock, so
/// nothing is promised of it. `Utc::now` aborts on a system clock set before
/// the unix epoch; that is environmental, not driven by any input.
#[verifier::external_body]
pub(crate) fn now_unix() -> i64 {
    chrono::Utc::now().timestamp()
}

} // verus!
