//! Password hashing: a salted one-way hash and its verification.

use vstd::prelude::*;
use crate::error::AuthError;

verus! {

/// What `bcrypt::verify` returns for a password and a hash: `Some(true)` or
/// `Some(false)` where it compares them, `None` where it rejects the hash
/// as unreadable.
pub uninterp spec fn bcrypt_verdict(password: Seq<char>, hash: Seq<char>) -> Option<bool>;

/// Calls `bcrypt::hash` at the default cost.
///
/// Trusted: a hash that comes back verifies against the password it was
/// made from, because `bcrypt::verify` recomputes the digest from the same
/// password and the salt and cost embedded in the hash. The salt is random,
/// so nothing else is claimed of the hash; the call fails when no
/// randomness can be had.
#[verifier::external_body]
fn bcrypt_hash(password: &str) -> (r: Result<String, bcrypt::BcryptError>)
    ensures
        r matches Ok(hash) ==> bcrypt_verdict(password@, hash@) == Some(true),
{
    bcrypt::hash(password, bcrypt::DEFAULT_COST)
}

/// Calls `bcrypt::verify`.
///
/// Trusted: the outcome depends on the two texts alone, and is the one
/// named by [`bcrypt_verdict`].
#[verifier::external_body]
fn bcrypt_check(password: &str, hash: &str) -> (r: Result<bool, bcrypt::BcryptError>)
    ensures
        r matches Ok(same) ==> bcrypt_verdict(password@, hash@) == Some(same),
        r is Err ==> bcrypt_verdict(password@, hash@) is None,
{
    bcrypt::verify(password, hash)
}

/// `hashed` may be what hashing `password` returned: a hash that verifies
/// against the password, or a hashing error.
pub open spec fn may_hash(password: Seq<char>, hashed: Result<String, AuthError>) -> bool {
    match hashed {
        Ok(hash) => bcrypt_verdict(password, hash@) == Some(true),
        Err(e) => e is PasswordHash,
    }
}

/// `verdict` is what checking `password` against `hash` returns: whether
/// they match, or a hashing error exactly where the hash is unreadable.
pub open spec fn may_verify(
    password: Seq<char>,
    hash: Seq<char>,
    verdict: Result<bool, AuthError>,
) -> bool {
    match verdict {
        Ok(same) => bcrypt_verdict(password, hash) == Some(same),
        Err(e) => e is PasswordHash && bcrypt_verdict(password, hash) is None,
    }
}

/// Hashes a password with a fresh random salt. The salt is part of the
/// hash, so verification needs nothing else. Every hash that is returned
/// verifies against the password; a failure of the hasher is reported as
/// `PasswordHash`.
pub fn hash_password(password: &str) -> (hashed: Result<String, AuthError>)
    ensures
        may_hash(password@, hashed),
{
    match bcrypt_hash(password) {
        Ok(hash) => Ok(hash),
        Err(e) => Err(AuthError::PasswordHash(e)),
    }
}

/// Checks a password against a stored hash: `Ok(true)` on a match,
/// `Ok(false)` on a mismatch, and `PasswordHash` exactly where the hash is
/// unreadable.
pub fn verify_password(password: &str, hash: &str) -> (verdict: Result<bool, AuthError>)
    ensures
        may_verify(password@, hash@, verdict),
{
    match bcrypt_check(password, hash) {
        Ok(same) => Ok(same),
        Err(e) => Err(AuthError::PasswordHash(e)),
    }
}

} // verus!
