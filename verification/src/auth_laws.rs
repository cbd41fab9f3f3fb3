//! What holds of signup and login when they run against a store that
//! keeps its uniqueness constraints.

use vstd::prelude::*;
use crate::auth::{
    login_draws_fit, login_step, session_granted, signup_draws_fit, signup_first, signup_step,
    LoginDraws, LoginState, SignupDraws, SignupState,
};
use crate::clock::Timestamp;
use crate::error::AuthError;
use crate::model::{AuthResponse, LoginPayload, SignupPayload, User};
use crate::password::bcrypt_verdict;
use crate::run::{login_run, outcome, serve, signup_run};
use crate::store::Answer;
use crate::store_model::{lemma_first_match, lemma_first_match_unique, StoreModel};

verus! {

/// The user that a signup stores: the payload's email and username, the
/// hash and the id that were drawn, no avatar, created at `now`.
pub open spec fn signed_up_user(payload: SignupPayload, draws: SignupDraws, now: Timestamp) -> User {
    User {
        id: draws.id,
        email: payload.email,
        password_hash: draws.hashed->Ok_0,
        username: payload.username,
        avatar_url: None,
        created_at: now,
    }
}

/// A signup with an email that no user has, under an id that no user has,
/// succeeds when hashing and signing succeed: it returns the new user's
/// outward form with the token, and the store then holds the new user,
/// whose stored hash is the one that was drawn, and keeps its constraints.
pub proof fn lemma_signup_with_fresh_email_succeeds(
    store: StoreModel,
    payload: SignupPayload,
    draws: SignupDraws,
    now: Timestamp,
)
    requires
        store.constrained(),
        store.user_by_email(payload.email@) is None,
        store.user_by_id(draws.id) is None,
        draws.hashed is Ok,
        draws.token is Ok,
    ensures
        ({
            let (after, result) = signup_run(store, payload, draws, now);
            let user = signed_up_user(payload, draws, now);
            &&& result == Some(
                Ok::<AuthResponse, AuthError>(
                    AuthResponse { user: user.outward(), token: draws.token->Ok_0 },
                ),
            )
            &&& after == StoreModel { users: store.users.push(user), ..store }
            &&& after.constrained()
            &&& after.user_by_email(payload.email@) == Some(user)
        }),
{
    let user = signed_up_user(payload, draws, now);
    let after = StoreModel { users: store.users.push(user), ..store };
    lemma_first_match(store.users, |u: User| u.email@ == payload.email@);
    lemma_first_match(store.users, |u: User| u.id == draws.id);
    assert(after.constrained());
    assert(after.users[store.users.len() as int] == user);
    lemma_first_match_unique(
        after.users,
        |u: User| u.email@ == payload.email@,
        store.users.len() as int,
    );
}

/// A signup with an email that a user already has fails with
/// `EmailExists` and leaves the store as it was, whatever is drawn.
pub proof fn lemma_signup_with_taken_email_fails(
    store: StoreModel,
    payload: SignupPayload,
    draws: SignupDraws,
    now: Timestamp,
)
    requires
        store.user_by_email(payload.email@) is Some,
    ensures
        signup_run(store, payload, draws, now) == (
            store,
            Some(Err::<AuthResponse, AuthError>(AuthError::EmailExists)),
        ),
{
}

/// Signup succeeds exactly once per email: after a successful signup,
/// every further signup with the same email fails with `EmailExists` and
/// changes nothing.
pub proof fn lemma_signup_succeeds_once(
    store: StoreModel,
    first: SignupPayload,
    first_draws: SignupDraws,
    first_now: Timestamp,
    second: SignupPayload,
    second_draws: SignupDraws,
    second_now: Timestamp,
)
    requires
        store.constrained(),
        store.user_by_email(first.email@) is None,
        store.user_by_id(first_draws.id) is None,
        first_draws.hashed is Ok,
        first_draws.token is Ok,
        second.email@ == first.email@,
    ensures
        ({
            let (after, result) = signup_run(store, first, first_draws, first_now);
            &&& result matches Some(Ok(_))
            &&& signup_run(after, second, second_draws, second_now) == (
                after,
                Some(Err::<AuthResponse, AuthError>(AuthError::EmailExists)),
            )
        }),
{
    lemma_signup_with_fresh_email_succeeds(store, first, first_draws, first_now);
    let after = signup_run(store, first, first_draws, first_now).0;
    lemma_signup_with_taken_email_fails(after, second, second_draws, second_now);
}

/// However late a signup learns of it, an email that a user already has
/// ends the signup with `EmailExists`: also a signup that found the email
/// free when it checked, and whose insert the store then refuses. The
/// store is left as it was.
pub proof fn lemma_late_insert_fails(
    store: StoreModel,
    payload: SignupPayload,
    draws: SignupDraws,
    now: Timestamp,
)
    requires
        store.user_by_email(payload.email@) is Some,
        draws.hashed is Ok,
    ensures
        ({
            let next = |state, answer| signup_step(state, answer, draws);
            let checked = signup_step(SignupState::Checking(payload), Answer::Exists(false), draws);
            let (after, end) = serve(store, checked, next, now);
            &&& checked is Ask
            &&& after == store
            &&& outcome(end) == Some(Err::<AuthResponse, AuthError>(AuthError::EmailExists))
        }),
{
}

/// Of two signups with the same email that both find the email free
/// before either inserts, exactly one succeeds: the insert that the store
/// serves first stores its user, and the other ends with `EmailExists`
/// without changing the store.
pub proof fn lemma_concurrent_signups_one_wins(
    store: StoreModel,
    winner: SignupPayload,
    winner_draws: SignupDraws,
    loser: SignupPayload,
    loser_draws: SignupDraws,
    now: Timestamp,
)
    requires
        store.constrained(),
        store.user_by_email(winner.email@) is None,
        store.user_by_id(winner_draws.id) is None,
        loser.email@ == winner.email@,
        winner_draws.hashed is Ok,
        winner_draws.token is Ok,
        loser_draws.hashed is Ok,
    ensures
        ({
            let winner_next = |state, answer| signup_step(state, answer, winner_draws);
            let loser_next = |state, answer| signup_step(state, answer, loser_draws);
            let (store1, winner_checked) = serve(store, signup_first(winner), winner_next, now);
            let (store2, loser_checked) = serve(store1, signup_first(loser), loser_next, now);
            let (store3, winner_end) = serve(store2, winner_checked, winner_next, now);
            let (store4, loser_end) = serve(store3, loser_checked, loser_next, now);
            &&& store2 == store
            &&& winner_checked is Ask
            &&& loser_checked is Ask
            &&& outcome(winner_end) matches Some(Ok(_))
            &&& outcome(loser_end) == Some(Err::<AuthResponse, AuthError>(AuthError::EmailExists))
            &&& store4 == store3
            &&& store3 == StoreModel {
                users: store.users.push(signed_up_user(winner, winner_draws, now)),
                ..store
            }
        }),
{
    let user = signed_up_user(winner, winner_draws, now);
    let after = StoreModel { users: store.users.push(user), ..store };
    lemma_first_match(store.users, |u: User| u.email@ == winner.email@);
    lemma_first_match(store.users, |u: User| u.id == winner_draws.id);
    assert(after.users[store.users.len() as int] == user);
    lemma_first_match_unique(
        after.users,
        |u: User| u.email@ == loser.email@,
        store.users.len() as int,
    );
}

/// A login with an unknown email and a login with a known email and a
/// password that does not match end alike: both fail with
/// `InvalidCredentials` and leave the store as it was.
pub proof fn lemma_login_failures_look_alike(
    store: StoreModel,
    unknown: LoginPayload,
    unknown_draws: LoginDraws,
    known: LoginPayload,
    known_draws: LoginDraws,
    secret: Seq<char>,
    now: Timestamp,
)
    requires
        store.user_by_email(unknown.email@) is None,
        store.user_by_email(known.email@) matches Some(user) && bcrypt_verdict(
            known.password@,
            user.password_hash@,
        ) == Some(false) && login_draws_fit(
            LoginState::Finding(known),
            Answer::MaybeUser(Some(user)),
            secret,
            known_draws,
        ),
    ensures
        login_run(store, unknown, unknown_draws, now) == (
            store,
            Some(Err::<AuthResponse, AuthError>(AuthError::InvalidCredentials)),
        ),
        login_run(store, known, known_draws, now) == login_run(store, unknown, unknown_draws, now),
{
}

/// After a successful signup, a login with the same email and password is
/// never refused for its credentials: it ends as the token issuer decides,
/// with the stored user's outward form on success.
pub proof fn lemma_login_after_signup(
    store: StoreModel,
    signup: SignupPayload,
    signup_draws: SignupDraws,
    signed_up_at: Timestamp,
    login: LoginPayload,
    login_draws: LoginDraws,
    secret: Seq<char>,
    now: Timestamp,
)
    requires
        store.constrained(),
        store.user_by_email(signup.email@) is None,
        store.user_by_id(signup_draws.id) is None,
        signup_draws.hashed is Ok,
        signup_draws.token is Ok,
        signup_draws_fit(SignupState::Checking(signup), Answer::Exists(false), secret, signup_draws),
        login.email@ == signup.email@,
        login.password@ == signup.password@,
        login_draws_fit(
            LoginState::Finding(login),
            Answer::MaybeUser(Some(signed_up_user(signup, signup_draws, signed_up_at))),
            secret,
            login_draws,
        ),
    ensures
        ({
            let after = signup_run(store, signup, signup_draws, signed_up_at).0;
            login_run(after, login, login_draws, now) == (
                after,
                Some(
                    session_granted(
                        signed_up_user(signup, signup_draws, signed_up_at),
                        login_draws.token,
                    ),
                ),
            )
        }),
{
    lemma_signup_with_fresh_email_succeeds(store, signup, signup_draws, signed_up_at);
}

} // verus!
