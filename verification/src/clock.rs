//! The wall clock.

use vstd::prelude::*;

verus! {

/// Relies on `chrono::Utc::now`: the current time in whole seconds since the
/// epoch. The value depends on the machine's clock, so nothing is promised
/// of it; callers state what holds at whatever instant was read.
#[verifier::external_body]
pub(crate) fn now_seconds() -> i64 {
    chrono::Utc::now().timestamp()
}

} // verus!
