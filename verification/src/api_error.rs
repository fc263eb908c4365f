//! The error body handed to API callers: one opaque message, never internal
//! diagnostic detail.

use vstd::prelude::*;

verus! {

/// An error message as a caller sees it.
#[derive(Debug)]
pub struct ApiError {
    message: String,
}

impl ApiError {
    /// The carried message.
    pub closed spec fn spec_message(self) -> Seq<char> {
        self.message@
    }

    pub fn new(message: String) -> (r: ApiError)
        ensures
            r.spec_message() == message@,
    {
        ApiError { message }
    }

    /// Read the carried message.
    pub fn message(&self) -> (r: &String)
        ensures
            r@ == self.spec_message(),
    {
        &self.message
    }
}

} // verus!
