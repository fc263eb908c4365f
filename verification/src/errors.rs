//! Error taxonomy of the authentication subsystem.

use vstd::prelude::*;

verus! {

/// Coarse error kinds surfaced by the authentication flows.
///
/// Token-lifecycle failures deliberately collapse into two kinds visible to a
/// token holder (`JWTExpirationError` and `JWTVerificationError`); credential
/// misses are `NotFound` without distinguishing their cause, so that callers
/// cannot enumerate accounts.
#[derive(Debug, Clone, Copy, PartialEq, Eq, Structural)]
pub enum AuthError {
    /// The requested expiry cannot be represented.
    JWTDurationError,
    /// A token's embedded expiry has passed.
    JWTExpirationError,
    /// The signing operation itself failed. Part of the taxonomy for
    /// callers; the HMAC codec here is proved to owe a token, so it never
    /// produces this kind.
    JWTSignError,
    /// Any other token failure: bad signature, malformed structure, wrong
    /// algorithm.
    JWTVerificationError,
    /// Lookup or credential miss.
    NotFound,
    /// A failure not attributable to caller input.
    InternalServerError,
    /// Uniqueness violation on registration.
    Conflict,
    /// Malformed caller input.
    BadRequest,
}

} // verus!
