//! Session tokens: signed, time-bounded bearer credentials that carry a
//! user's identity.

use vstd::prelude::*;
use crate::clock::{system_now, Timestamp};
use crate::error::{AuthError, TokenError};
use crate::model::Claims;
use jsonwebtoken::errors::ErrorKind;
use jsonwebtoken::{decode, encode, DecodingKey, EncodingKey, Header, Validation};
use serde_json::Value;
use uuid::Uuid;

verus! {

/// How long a session token stays valid after it was issued, in seconds.
pub const TOKEN_LIFETIME_SECS: u64 = 86_400;

/// The mathematical content of [`Claims`].
pub struct ClaimsView {
    pub sub: u128,
    pub email: Seq<char>,
    pub exp: u64,
    pub iat: u64,
}

impl View for Claims {
    type V = ClaimsView;

    open spec fn view(&self) -> ClaimsView {
        ClaimsView { sub: self.sub, email: self.email@, exp: self.exp, iat: self.iat }
    }
}

/// The four claims as they were found in a token whose signature holds;
/// a claim is `None` where the token lacks it or gives it another type.
#[derive(Clone, Debug, PartialEq, Eq)]
pub struct TokenBody {
    pub sub: Option<u128>,
    pub email: Option<String>,
    pub exp: Option<u64>,
    pub iat: Option<u64>,
}

/// The mathematical content of [`TokenBody`].
pub struct TokenBodyView {
    pub sub: Option<u128>,
    pub email: Option<Seq<char>>,
    pub exp: Option<u64>,
    pub iat: Option<u64>,
}

impl View for TokenBody {
    type V = TokenBodyView;

    open spec fn view(&self) -> TokenBodyView {
        TokenBodyView {
            sub: self.sub,
            email: match self.email {
                Some(e) => Some(e@),
                None => None,
            },
            exp: self.exp,
            iat: self.iat,
        }
    }
}

/// The claims of a session for `sub` and `email` that starts at second `iat`.
pub open spec fn session_claims(sub: u128, email: Seq<char>, iat: u64) -> ClaimsView {
    ClaimsView { sub, email, exp: (iat + TOKEN_LIFETIME_SECS) as u64, iat }
}

/// A token body that gives all of `claims`.
pub open spec fn body_of(claims: ClaimsView) -> TokenBodyView {
    TokenBodyView {
        sub: Some(claims.sub),
        email: Some(claims.email),
        exp: Some(claims.exp),
        iat: Some(claims.iat),
    }
}

/// The token that `jsonwebtoken::encode` makes of four claims under a
/// secret with HMAC-SHA256, or `None` where it fails.
pub uninterp spec fn jwt_written(
    sub: u128,
    email: Seq<char>,
    exp: u64,
    iat: u64,
    secret: Seq<char>,
) -> Option<Seq<char>>;

/// What `jsonwebtoken::decode` finds in a text under a secret, expiry left
/// unchecked: the claims of a token whose signature holds, or the kind of
/// its refusal.
pub uninterp spec fn jwt_reading(token: Seq<char>, secret: Seq<char>) -> Result<
    TokenBodyView,
    TokenError,
>;

/// `token` is what signing `claims` under `secret` gives, and reading it
/// back under the same secret gives the same claims.
pub open spec fn is_token_for(token: Seq<char>, claims: ClaimsView, secret: Seq<char>) -> bool {
    &&& jwt_written(claims.sub, claims.email, claims.exp, claims.iat, secret) == Some(token)
    &&& jwt_reading(token, secret) == Ok::<TokenBodyView, TokenError>(body_of(claims))
}

/// Signs claims with `jsonwebtoken::encode` under HMAC-SHA256. The subject
/// goes into the token as the hyphenated text of a UUID.
///
/// Trusted: the token depends on the claims and the secret alone, and
/// `jsonwebtoken::decode` under the same secret accepts it and gives back
/// the four claims unchanged.
#[verifier::external_body]
fn jwt_sign(claims: &Claims, secret: &str) -> (r: Result<String, jsonwebtoken::errors::Error>)
    ensures
        r matches Ok(token) ==> is_token_for(token@, claims@, secret@),
        r is Err ==> jwt_written(claims.sub, claims.email@, claims.exp, claims.iat, secret@)
            is None,
{
    let mut body = serde_json::Map::new();
    body.insert("sub".to_string(), Value::from(Uuid::from_u128(claims.sub).to_string()));
    body.insert("email".to_string(), Value::from(claims.email.as_str()));
    body.insert("exp".to_string(), Value::from(claims.exp));
    body.insert("iat".to_string(), Value::from(claims.iat));
    encode(&Header::default(), &body, &EncodingKey::from_secret(secret.as_bytes()))
}

/// Opens a token with `jsonwebtoken::decode` under HMAC-SHA256, with the
/// library's own expiry check switched off, and picks the four claims out
/// of the body.
///
/// Trusted: the outcome depends on the two texts alone. A signature that
/// does not match gives `BadSignature`; every other refusal of the text
/// gives `Malformed`.
#[verifier::external_body]
fn jwt_read(token: &str, secret: &str) -> (r: Result<TokenBody, TokenError>)
    ensures
        reading_view(r) == jwt_reading(token@, secret@),
{
    let mut rules = Validation::default();
    rules.validate_exp = false;
    match decode::<Value>(token, &DecodingKey::from_secret(secret.as_bytes()), &rules) {
        Ok(data) => Ok(TokenBody {
            sub: data.claims["sub"].as_str().and_then(|s| Uuid::parse_str(s).ok()).map(|u| u.as_u128()),
            email: data.claims["email"].as_str().map(String::from),
            exp: data.claims["exp"].as_u64(),
            iat: data.claims["iat"].as_u64(),
        }),
        Err(e) => Err(match e.kind() {
            ErrorKind::InvalidSignature => TokenError::BadSignature,
            _ => TokenError::Malformed,
        }),
    }
}

impl ClaimsView {
    /// The expiry lies strictly after the issue.
    pub open spec fn well_formed(self) -> bool {
        self.exp > self.iat
    }
}

impl Claims {
    /// The claims of a session for `sub` and `email` that starts at second
    /// `now`: issued then, expiring one lifetime later.
    pub fn issued(sub: u128, email: String, now: u64) -> (claims: Claims)
        requires
            now + TOKEN_LIFETIME_SECS <= u64::MAX,
        ensures
            claims@ == session_claims(sub, email@, now),
            claims@.well_formed(),
    {
        Claims { sub, email, exp: now + TOKEN_LIFETIME_SECS, iat: now }
    }
}

/// What validation makes of a reading at the instant `now`: a refusal
/// stands; a body that lacks a claim, or whose expiry is not after its
/// issue, is malformed; otherwise the claims hold while `now` is before
/// the expiry and are expired from then on.
pub open spec fn judged(read: Result<TokenBodyView, TokenError>, now: Timestamp) -> Result<
    ClaimsView,
    TokenError,
> {
    match read {
        Err(e) => Err(e),
        Ok(body) => match (body.sub, body.email, body.exp, body.iat) {
            (Some(sub), Some(email), Some(exp), Some(iat)) => if exp <= iat {
                Err(TokenError::Malformed)
            } else if now.secs < exp {
                Ok(ClaimsView { sub, email, exp, iat })
            } else {
                Err(TokenError::Expired)
            },
            _ => Err(TokenError::Malformed),
        },
    }
}

/// The judgement that accepts `claims`.
pub open spec fn accepted(claims: ClaimsView) -> Result<ClaimsView, TokenError> {
    Ok(claims)
}

/// The judgement that refuses a token for the reason `e`.
pub open spec fn refused(e: TokenError) -> Result<ClaimsView, TokenError> {
    Err(e)
}

/// The view of a validation result.
pub open spec fn verdict_view(r: Result<Claims, TokenError>) -> Result<ClaimsView, TokenError> {
    match r {
        Ok(claims) => Ok(claims@),
        Err(e) => Err(e),
    }
}

/// The view of what was read from a token.
pub open spec fn reading_view(r: Result<TokenBody, TokenError>) -> Result<
    TokenBodyView,
    TokenError,
> {
    match r {
        Ok(body) => Ok(body@),
        Err(e) => Err(e),
    }
}

/// Judges what was read from a token at the instant `now`.
pub fn check_claims(read: Result<TokenBody, TokenError>, now: Timestamp) -> (r: Result<
    Claims,
    TokenError,
>)
    ensures
        verdict_view(r) == judged(reading_view(read), now),
        r matches Ok(claims) ==> claims@.well_formed() && now.secs < claims.exp,
{
    match read {
        Err(e) => Err(e),
        Ok(body) => match (body.sub, body.email, body.exp, body.iat) {
            (Some(sub), Some(email), Some(exp), Some(iat)) => {
                if exp <= iat {
                    Err(TokenError::Malformed)
                } else if now.secs < 0 || (now.secs as u64) < exp {
                    Ok(Claims { sub, email, exp, iat })
                } else {
                    Err(TokenError::Expired)
                }
            },
            _ => Err(TokenError::Malformed),
        },
    }
}

/// What issuing a token for `claims` under `secret` returns: the signed
/// form of the claims, which reads back as them, or `Jwt` where the claims
/// cannot be signed.
pub open spec fn issue_of(claims: ClaimsView, secret: Seq<char>, r: Result<String, AuthError>) -> bool {
    match r {
        Ok(token) => is_token_for(token@, claims, secret),
        Err(e) => e is Jwt && jwt_written(claims.sub, claims.email, claims.exp, claims.iat, secret)
            is None,
    }
}

/// Issues a session token for a user: claims issued now and expiring one
/// lifetime later, signed under `secret`.
///
/// The result is what signing the session claims of some issue second
/// gives: on success their signed form, which reads back as those claims.
pub fn create_token(user_id: u128, email: &str, secret: &str) -> (r: Result<String, AuthError>)
    ensures
        exists|iat: u64| issue_of(#[trigger] session_claims(user_id, email@, iat), secret@, r),
{
    let now = system_now();
    let claims = Claims::issued(user_id, email.to_owned(), now.secs as u64);
    let r = match jwt_sign(&claims, secret) {
        Ok(token) => Ok(token),
        Err(e) => Err(AuthError::Jwt(e)),
    };
    assert(issue_of(session_claims(user_id, email@, now.secs as u64), secret@, r));
    r
}

/// Validates a session token under `secret` at the present instant.
///
/// The result is the judgement, at some instant at or after the epoch, of
/// what the token reads as under the secret.
pub fn validate_token(token: &str, secret: &str) -> (r: Result<Claims, TokenError>)
    ensures
        exists|now: Timestamp|
            now.secs >= 0 && verdict_view(r) == #[trigger] judged(
                jwt_reading(token@, secret@),
                now,
            ),
{
    let read = jwt_read(token, secret);
    let now = system_now();
    check_claims(read, now)
}

/// A token issued at second `iat` is accepted at every instant before
/// `iat` plus the lifetime, with the claims it was issued for, and is
/// refused as expired from that instant on.
pub proof fn lemma_token_valid_until_expiry(
    token: Seq<char>,
    sub: u128,
    email: Seq<char>,
    iat: u64,
    secret: Seq<char>,
    now: Timestamp,
)
    requires
        iat + TOKEN_LIFETIME_SECS <= u64::MAX,
        is_token_for(token, session_claims(sub, email, iat), secret),
    ensures
        now.secs < iat + TOKEN_LIFETIME_SECS ==> judged(jwt_reading(token, secret), now)
            == accepted(session_claims(sub, email, iat)),
        now.secs >= iat + TOKEN_LIFETIME_SECS ==> judged(jwt_reading(token, secret), now)
            == refused(TokenError::Expired),
{
}

} // verus!
