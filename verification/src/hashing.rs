//! Password hashing and verification, delegated to the argon2 crate.
//!
//! The hash of a password is salted with fresh randomness, so nothing can be
//! said of the produced string itself; what argon2 does promise is that the
//! produced string parses back as a password hash and that verification of
//! the same password against it succeeds. Those two facts are given names
//! here, and every contract about credentials speaks through them.

use vstd::prelude::*;
use argon2::Argon2;
use argon2::password_hash::{PasswordHasher, PasswordVerifier};
use argon2::password_hash::phc::PasswordHash;

verus! {

/// Whether argon2 verification of `password` against the encoded hash
/// `hash` succeeds. A pure function of its two arguments: argon2
/// recomputes the hash from the password and the parameters and salt
/// encoded in `hash`, and compares.
pub uninterp spec fn hash_matches(password: Seq<char>, hash: Seq<char>) -> bool;

/// Whether `hash` is structurally a password hash: it parses in the PHC
/// string format. A pure function of the string.
pub uninterp spec fn hash_wellformed(hash: Seq<char>) -> bool;

/// Hash a password with a fresh random salt.
///
/// Relies on argon2's `PasswordHasher::hash_password`: on success the
/// result is a PHC-encoded hash string that parses back
/// (`PasswordHash::new` accepts the crate's own output) and verifies
/// against the hashed password (the crate's documented round trip). The
/// salt is drawn fresh, so two calls on one password may differ, and
/// failure (a random-generator or parameter fault) is possible on any
/// input; nothing more is promised.
#[verifier::external_body]
pub(crate) fn hash_password(password: &str) -> (r: Result<String, String>)
    ensures
        r is Ok ==> hash_wellformed(r->Ok_0@),
        r is Ok ==> hash_matches(password@, r->Ok_0@),
{
    Argon2::default()
        .hash_password(password.as_bytes())
        .map(|hash| hash.to_string())
        .map_err(|e| e.to_string())
}

/// Verify a password against a stored encoded hash.
///
/// Relies on argon2's `PasswordVerifier::verify_password` and
/// `PasswordHash::new`: parsing the stored string is a pure function of
/// that string, and when it parses, verification recomputes the hash and
/// compares, succeeding exactly when the password matches. A string that
/// does not parse is reported as an error, never as a mismatch.
#[verifier::external_body]
pub(crate) fn verify_password_hash(password: &str, hash: &str) -> (r: Result<bool, String>)
    ensures
        r is Ok <==> hash_wellformed(hash@),
        r is Ok ==> r->Ok_0 == hash_matches(password@, hash@),
{
    let parsed = PasswordHash::new(hash).map_err(|e| e.to_string())?;
    Ok(Argon2::default().verify_password(password.as_bytes(), &parsed).is_ok())
}

} // verus!
