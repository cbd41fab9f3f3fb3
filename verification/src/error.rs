//! What can go wrong, by kind.

use vstd::prelude::*;

verus! {

/// The error type of `bcrypt`, carried through unopened.
#[verifier::external_type_specification]
#[verifier::external_body]
pub struct ExBcryptError(bcrypt::BcryptError);

/// The error type of `jsonwebtoken`, carried through unopened.
#[verifier::external_type_specification]
#[verifier::external_body]
pub struct ExJwtError(jsonwebtoken::errors::Error);

/// A fault of the record store itself, as opposed to a rule of this
/// subsystem that a request broke.
#[derive(Clone, Debug, PartialEq, Eq)]
pub enum StoreFault {
    /// The store reported a failure; the text is its own.
    Failed(String),
    /// The store answered with a reply that does not fit the request.
    UnexpectedReply,
}

/// Why a signup, a login or a user lookup did not succeed.
#[derive(Debug)]
pub enum AuthError {
    /// The email already belongs to a user.
    EmailExists,
    /// Unknown email or wrong password; the two are not told apart.
    InvalidCredentials,
    /// No user has the id asked for.
    UserNotFound,
    /// The record store failed.
    Database(StoreFault),
    /// The password could not be hashed, or a stored hash could not be read.
    PasswordHash(bcrypt::BcryptError),
    /// The session token could not be signed.
    Jwt(jsonwebtoken::errors::Error),
}

/// Why an invite operation did not succeed.
#[derive(Clone, Debug, PartialEq, Eq)]
pub enum InviteError {
    /// No invite has the code asked for.
    InviteNotFound,
    /// The invite is revoked, expired or used up.
    InviteInvalid,
    /// The record store failed.
    Database(StoreFault),
}

/// Why a session token was not accepted.
#[derive(Clone, Copy, Debug, PartialEq, Eq, Structural)]
pub enum TokenError {
    /// The text is not a token of the expected shape and content.
    Malformed,
    /// The signature does not belong to the token under the secret.
    BadSignature,
    /// The token's expiry has been reached.
    Expired,
}

} // verus!
