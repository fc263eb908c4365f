//! Fresh-identifier generation.

use vstd::prelude::*;

verus! {

/// Relies on `uuid::Uuid::new_v4`: a freshly drawn random identifier,
/// rendered in its canonical hyphenated form. The value is random, so
/// nothing is promised of it; callers check freshness themselves.
#[verifier::external_body]
pub(crate) fn new_uuid() -> String {
    uuid::Uuid::new_v4().to_string()
}

} // verus!
