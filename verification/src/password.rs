//! One-way password hashing and verification.
//!
//! Hashing draws a fresh random salt on every call, so two hashes of the same
//! password differ; verification recomputes the hash from the parameters and
//! salt embedded in the stored string and compares in constant time. Both
//! operations are carried out by the `argon2` crate; what verification returns
//! for a given (stored hash, candidate) pair is a fixed function of those two
//! strings, named `verify_ok` below.

use vstd::prelude::*;

use argon2::password_hash::SaltString;
use argon2::{Argon2, PasswordHash, PasswordHasher, PasswordVerifier};

use crate::errors::Error;

verus! {

/// Whether `argon2` verification of `candidate` against the stored,
/// self-describing hash string `hash` succeeds. Verification recomputes the
/// hash with the salt and parameters embedded in `hash`, so the outcome
/// depends on the two strings alone.
pub uninterp spec fn verify_ok(hash: Seq<char>, candidate: Seq<char>) -> bool;

/// Hashes a password with a freshly drawn random salt.
///
/// Relies on `Argon2::hash_password` (via `PasswordHasher`): the returned PHC
/// string embeds the algorithm, version, parameters and salt used, so
/// `verify_password` recomputes exactly the hash that was produced and
/// accepts the original password.
#[verifier::external_body]
pub fn compute_password_hash(password: &str) -> (r: Result<String, Error>)
    ensures
        r matches Ok(h) ==> verify_ok(h@, password@),
{
    let salt = SaltString::generate(&mut rand::thread_rng());
    match Argon2::default().hash_password(password.as_bytes(), &salt) {
        Ok(h) => Ok(h.to_string()),
        Err(e) => Err(Error::Internal(e.to_string())),
    }
}

/// Verifies a password candidate against a stored hash string.
///
/// Relies on `PasswordHash::new` and `Argon2::verify_password`: parsing the
/// stored string and recomputing the hash are functions of the two arguments
/// alone, so the outcome is exactly `verify_ok`. A malformed stored string
/// never verifies.
#[verifier::external_body]
pub fn verify_password_hash(expected_password_hash: String, password_candidate: String) -> (r:
    Result<(), Error>)
    ensures
        r is Ok <==> verify_ok(expected_password_hash@, password_candidate@),
{
    let parsed = match PasswordHash::new(&expected_password_hash) {
        Ok(p) => p,
        Err(e) => return Err(Error::Unauthorized(e.to_string())),
    };
    match Argon2::default().verify_password(password_candidate.as_bytes(), &parsed) {
        Ok(()) => Ok(()),
        Err(e) => Err(Error::Unauthorized(e.to_string())),
    }
}

} // verus!
