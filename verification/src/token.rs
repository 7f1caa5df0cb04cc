//! Issuance of opaque single-use tokens and of fresh account identifiers,
//! delegated to the uuid crate. Both draw randomness, so no contract relates
//! two calls or pins a value; the lifetime rules (expiry, single use) are
//! stated and proved where tokens are stored and consumed.

use vstd::prelude::*;

verus! {

/// The validity window of an email-verification token: 24 hours.
pub const VERIFICATION_TOKEN_TTL_MS: u64 = 86400000;

/// The validity window of a password-reset token: 1 hour.
pub const RESET_TOKEN_TTL_MS: u64 = 3600000;

/// Draw a fresh opaque token.
///
/// Relies on uuid's `Uuid::new_v4` and its `Display` form: a random UUID
/// rendered as the 36-character hyphenated string. The value is random;
/// only its length is promised.
#[verifier::external_body]
pub(crate) fn fresh_token() -> (r: String)
    ensures
        r@.len() == 36,
{
    uuid::Uuid::new_v4().to_string()
}

/// Draw a fresh 128-bit account identifier.
///
/// Relies on uuid's `Uuid::new_v4` and `Uuid::as_u128`. The value is
/// random; nothing is promised of it, and the store checks uniqueness
/// itself.
#[verifier::external_body]
pub(crate) fn fresh_id() -> (r: u128)
{
    uuid::Uuid::new_v4().as_u128()
}

} // verus!
