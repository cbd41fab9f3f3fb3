//! Signup, login and user lookup.

use vstd::prelude::*;
use crate::error::AuthError;
use crate::flow::Step;
use crate::ident::{fresh_id, is_random_uuid};
use crate::model::{AuthResponse, LoginPayload, SignupPayload, User, UserResponse};
use crate::password::{hash_password, may_hash, may_verify, verify_password};
use crate::store::{fault_of, reply_fault, Answer, Reply, Request};
use crate::token::{create_token, issue_of, session_claims};

verus! {

/// Where a signup stands while it waits for the store.
#[derive(Debug)]
pub enum SignupState {
    /// Asked whether the email exists.
    Checking(SignupPayload),
    /// Asked to insert the new user.
    Inserting,
}

/// The step of a signup.
pub type SignupStep = Step<SignupState, AuthResponse, AuthError>;

/// `token` may be what issuing a session token for the user returned: the
/// outcome of signing the session claims of some issue second.
pub open spec fn may_issue(
    user_id: u128,
    email: Seq<char>,
    secret: Seq<char>,
    token: Result<String, AuthError>,
) -> bool {
    exists|iat: u64| issue_of(#[trigger] session_claims(user_id, email, iat), secret, token)
}

/// What a signup does once the email is known to be free and the password
/// has been put through the hasher: a hashing failure ends it; otherwise it
/// asks the store to insert the user under `id`.
pub open spec fn signup_insert_spec(
    payload: SignupPayload,
    hashed: Result<String, AuthError>,
    id: u128,
) -> SignupStep {
    match hashed {
        Err(e) => Step::Done(Err(e)),
        Ok(hash) => Step::Ask(
            SignupState::Inserting,
            Request::InsertUser {
                id,
                email: payload.email,
                password_hash: hash,
                username: payload.username,
            },
        ),
    }
}

/// How signup and login end once the user is known and a token was asked
/// for: a signing failure is reported; otherwise the caller gets the
/// user's outward form, which has no password hash, and the token.
pub open spec fn session_granted(user: User, token: Result<String, AuthError>) -> Result<
    AuthResponse,
    AuthError,
> {
    match token {
        Err(e) => Err(e),
        Ok(text) => Ok(AuthResponse { user: user.outward(), token: text }),
    }
}

/// The values a signup step may draw from outside: the hasher's result, a
/// fresh id, and the token issuer's result.
pub struct SignupDraws {
    pub hashed: Result<String, AuthError>,
    pub id: u128,
    pub token: Result<String, AuthError>,
}

/// One step of a signup: from the state it waited in and the store's
/// answer to the next request or the result.
///
/// - While checking: an existing email ends it with `EmailExists`; a free
///   one leads to hashing and the insert.
/// - While inserting: the stored user leads to the token and success; a
///   uniqueness conflict ends it with `EmailExists`, whatever the earlier
///   check said.
/// - Any other answer is a fault of the store.
pub open spec fn signup_step(state: SignupState, answer: Answer, draws: SignupDraws) -> SignupStep {
    match state {
        SignupState::Checking(payload) => match answer {
            Answer::Exists(true) => Step::Done(Err(AuthError::EmailExists)),
            Answer::Exists(false) => signup_insert_spec(payload, draws.hashed, draws.id),
            other => Step::Done(Err(AuthError::Database(fault_of(other)))),
        },
        SignupState::Inserting => match answer {
            Answer::User(user) => Step::Done(session_granted(user, draws.token)),
            Answer::Conflict => Step::Done(Err(AuthError::EmailExists)),
            other => Step::Done(Err(AuthError::Database(fault_of(other)))),
        },
    }
}

/// The draws fit the step: the hash, if any, verifies against the
/// payload's password; the id is a random UUID; where the user has just
/// been stored, the token is what issuing a session token for that user
/// under `secret` may return.
pub open spec fn signup_draws_fit(
    state: SignupState,
    answer: Answer,
    secret: Seq<char>,
    draws: SignupDraws,
) -> bool {
    &&& state matches SignupState::Checking(payload) ==> may_hash(payload.password@, draws.hashed)
    &&& is_random_uuid(draws.id)
    &&& match (state, answer) {
        (SignupState::Inserting, Answer::User(user)) => may_issue(
            user.id,
            user.email@,
            secret,
            draws.token,
        ),
        _ => true,
    }
}

/// The first step of a signup: ask whether the email exists.
pub open spec fn signup_first(payload: SignupPayload) -> SignupStep {
    Step::Ask(SignupState::Checking(payload), Request::EmailExists { email: payload.email })
}

/// Starts a signup: asks the store whether the email exists.
pub fn signup(payload: SignupPayload) -> (step: SignupStep)
    ensures
        step == signup_first(payload),
{
    let email = payload.email.clone();
    Step::Ask(SignupState::Checking(payload), Request::EmailExists { email })
}

/// Continues a signup whose email is free, given what the hasher returned
/// and a fresh id.
pub fn signup_insert(payload: SignupPayload, hashed: Result<String, AuthError>, id: u128) -> (step:
    SignupStep)
    ensures
        step == signup_insert_spec(payload, hashed, id),
{
    match hashed {
        Err(e) => Step::Done(Err(e)),
        Ok(hash) => Step::Ask(
            SignupState::Inserting,
            Request::InsertUser {
                id,
                email: payload.email,
                password_hash: hash,
                username: payload.username,
            },
        ),
    }
}

/// Ends a signup or a login for `user`, given what the token issuer
/// returned.
pub fn grant_session(user: User, token: Result<String, AuthError>) -> (r: Result<
    AuthResponse,
    AuthError,
>)
    ensures
        r == session_granted(user, token),
{
    match token {
        Err(e) => Err(e),
        Ok(text) => Ok(AuthResponse { user: UserResponse::from(user), token: text }),
    }
}

/// A value with the marks of a random UUID, for steps that draw none.
spec fn idle_id() -> u128 {
    0x0000_0000_0000_4000_8000_0000_0000_0000u128
}

/// The draws of a step that draws nothing.
spec fn idle_signup_draws() -> SignupDraws {
    SignupDraws {
        hashed: Err(AuthError::PasswordHash(arbitrary())),
        id: idle_id(),
        token: Err(arbitrary()),
    }
}

proof fn lemma_idle_id_is_random()
    ensures
        is_random_uuid(idle_id()),
{
    assert(0x0000_0000_0000_4000_8000_0000_0000_0000u128
        & 0x0000_0000_0000_f000_c000_0000_0000_0000u128
        == 0x0000_0000_0000_4000_8000_0000_0000_0000u128) by (bit_vector);
}

/// Resumes a signup with the store's reply. Hashes the password and draws
/// the id when the email is free; issues the token when the user is stored.
///
/// The result is [`signup_step`] of the state and the reply, for draws
/// that fit them.
pub fn signup_resume(state: SignupState, reply: Reply, jwt_secret: &str) -> (step: SignupStep)
    ensures
        exists|draws: SignupDraws|
            signup_draws_fit(state, reply@, jwt_secret@, draws) && step == #[trigger] signup_step(
                state,
                reply@,
                draws,
            ),
{
    let ghost before = state;
    let ghost answer = reply@;
    let ghost mut draws = idle_signup_draws();
    proof {
        lemma_idle_id_is_random();
    }
    let step = match state {
        SignupState::Checking(payload) => match reply {
            Reply::Exists(true) => Step::Done(Err(AuthError::EmailExists)),
            Reply::Exists(false) => {
                let hashed = hash_password(payload.password.as_str());
                let id = fresh_id();
                proof {
                    draws = SignupDraws { hashed, id, token: Err(arbitrary()) };
                }
                signup_insert(payload, hashed, id)
            },
            other => Step::Done(Err(AuthError::Database(reply_fault(other)))),
        },
        SignupState::Inserting => match reply {
            Reply::User(user) => {
                let token = create_token(user.id, user.email.as_str(), jwt_secret);
                proof {
                    draws = SignupDraws { token, ..draws };
                }
                Step::Done(grant_session(user, token))
            },
            Reply::Conflict => Step::Done(Err(AuthError::EmailExists)),
            other => Step::Done(Err(AuthError::Database(reply_fault(other)))),
        },
    };
    assert(signup_draws_fit(before, answer, jwt_secret@, draws));
    assert(step == signup_step(before, answer, draws));
    step
}

/// Where a login stands while it waits for the store.
#[derive(Debug)]
pub enum LoginState {
    /// Asked for the user with the payload's email.
    Finding(LoginPayload),
}

/// The step of a login.
pub type LoginStep = Step<LoginState, AuthResponse, AuthError>;

/// What the password check lets through: a failure of the check stands,
/// a mismatch is `InvalidCredentials`, a match passes.
pub open spec fn password_judged(verdict: Result<bool, AuthError>) -> Result<(), AuthError> {
    match verdict {
        Err(e) => Err(e),
        Ok(false) => Err(AuthError::InvalidCredentials),
        Ok(true) => Ok(()),
    }
}

/// The values a login step may draw from outside: the password check's
/// result and the token issuer's result.
pub struct LoginDraws {
    pub verdict: Result<bool, AuthError>,
    pub token: Result<String, AuthError>,
}

/// The one step of a login: no user with the email ends it with
/// `InvalidCredentials`, and so does a password that does not match, so
/// that the two cannot be told apart; a match leads to the token and
/// success. Any answer but a user lookup's is a fault of the store.
pub open spec fn login_step(state: LoginState, answer: Answer, draws: LoginDraws) -> LoginStep {
    match answer {
        Answer::MaybeUser(None) => Step::Done(Err(AuthError::InvalidCredentials)),
        Answer::MaybeUser(Some(user)) => match password_judged(draws.verdict) {
            Err(e) => Step::Done(Err(e)),
            Ok(_) => Step::Done(session_granted(user, draws.token)),
        },
        other => Step::Done(Err(AuthError::Database(fault_of(other)))),
    }
}

/// The draws fit the step: the verdict is the one of the payload's
/// password against the found user's hash, and where the password
/// matches, the token is what issuing a session token for that user under
/// `secret` may return.
pub open spec fn login_draws_fit(
    state: LoginState,
    answer: Answer,
    secret: Seq<char>,
    draws: LoginDraws,
) -> bool {
    match (state, answer) {
        (LoginState::Finding(payload), Answer::MaybeUser(Some(user))) => {
            &&& may_verify(payload.password@, user.password_hash@, draws.verdict)
            &&& draws.verdict == Ok::<bool, AuthError>(true) ==> may_issue(
                user.id,
                user.email@,
                secret,
                draws.token,
            )
        },
        _ => true,
    }
}

/// Decides what the password check lets through.
pub fn judge_password(verdict: Result<bool, AuthError>) -> (r: Result<(), AuthError>)
    ensures
        r == password_judged(verdict),
{
    match verdict {
        Err(e) => Err(e),
        Ok(false) => Err(AuthError::InvalidCredentials),
        Ok(true) => Ok(()),
    }
}

/// The first step of a login: ask for the user with the email.
pub open spec fn login_first(payload: LoginPayload) -> LoginStep {
    Step::Ask(LoginState::Finding(payload), Request::FindUserByEmail { email: payload.email })
}

/// Starts a login: asks the store for the user with the email.
pub fn login(payload: LoginPayload) -> (step: LoginStep)
    ensures
        step == login_first(payload),
{
    let email = payload.email.clone();
    Step::Ask(LoginState::Finding(payload), Request::FindUserByEmail { email })
}

/// Resumes a login with the store's reply. Checks the password when a user
/// was found, and issues the token when it matches.
///
/// The result is [`login_step`] of the state and the reply, for draws that
/// fit them.
pub fn login_resume(state: LoginState, reply: Reply, jwt_secret: &str) -> (step: LoginStep)
    ensures
        exists|draws: LoginDraws|
            login_draws_fit(state, reply@, jwt_secret@, draws) && step == #[trigger] login_step(
                state,
                reply@,
                draws,
            ),
{
    let ghost before = state;
    let ghost answer = reply@;
    let ghost mut draws = LoginDraws { verdict: Err(arbitrary()), token: Err(arbitrary()) };
    let LoginState::Finding(payload) = state;
    let step = match reply {
        Reply::MaybeUser(None) => Step::Done(Err(AuthError::InvalidCredentials)),
        Reply::MaybeUser(Some(user)) => {
            let verdict = verify_password(payload.password.as_str(), user.password_hash.as_str());
            proof {
                draws = LoginDraws { verdict, token: Err(arbitrary()) };
            }
            match judge_password(verdict) {
                Err(e) => Step::Done(Err(e)),
                Ok(_) => {
                    let token = create_token(user.id, user.email.as_str(), jwt_secret);
                    proof {
                        draws = LoginDraws { verdict, token };
                    }
                    Step::Done(grant_session(user, token))
                },
            }
        },
        other => Step::Done(Err(AuthError::Database(reply_fault(other)))),
    };
    assert(login_draws_fit(before, answer, jwt_secret@, draws));
    assert(step == login_step(before, answer, draws));
    step
}

/// Where a user lookup stands while it waits for the store.
#[derive(Clone, Copy, Debug, PartialEq, Eq, Structural)]
pub enum UserLookupState {
    /// Asked for the user with the id.
    Finding,
}

/// The step of a user lookup.
pub type UserLookupStep = Step<UserLookupState, UserResponse, AuthError>;

/// The one step of a user lookup: the user's outward form if there is
/// one, `UserNotFound` if there is none, a fault of the store otherwise.
pub open spec fn user_lookup_step(answer: Answer) -> UserLookupStep {
    match answer {
        Answer::MaybeUser(Some(user)) => Step::Done(Ok(user.outward())),
        Answer::MaybeUser(None) => Step::Done(Err(AuthError::UserNotFound)),
        other => Step::Done(Err(AuthError::Database(fault_of(other)))),
    }
}

/// Starts a lookup of the user with `user_id`.
pub fn get_user_by_id(user_id: u128) -> (step: UserLookupStep)
    ensures
        step == (UserLookupStep::Ask(
            UserLookupState::Finding,
            Request::FindUserById { id: user_id },
        )),
{
    Step::Ask(UserLookupState::Finding, Request::FindUserById { id: user_id })
}

/// Resumes a user lookup with the store's reply.
pub fn get_user_by_id_resume(state: UserLookupState, reply: Reply) -> (step: UserLookupStep)
    ensures
        step == user_lookup_step(reply@),
{
    match reply {
        Reply::MaybeUser(Some(user)) => Step::Done(Ok(UserResponse::from(user))),
        Reply::MaybeUser(None) => Step::Done(Err(AuthError::UserNotFound)),
        other => Step::Done(Err(AuthError::Database(reply_fault(other)))),
    }
}

/// Logs a user out. Session tokens are self-contained, so nothing is
/// revoked on the server: the call always succeeds, and an issued token
/// stays valid until it expires.
pub fn logout(user_id: u128) -> (r: Result<(), AuthError>)
    ensures
        r == Ok::<(), AuthError>(()),
{
    Ok(())
}

} // verus!
