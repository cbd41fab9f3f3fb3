//! Operations run to their end against the model of the store.

use vstd::prelude::*;
use crate::auth::{login_first, login_step, signup_first, signup_step, LoginDraws, SignupDraws};
use crate::clock::Timestamp;
use crate::error::{AuthError, InviteError};
use crate::flow::Step;
use crate::invite::{
    accept_first, accept_step, code_taken, create_invite_first, create_invite_step,
    CreateInviteState, CreateInviteStep,
};
use crate::model::{
    AuthResponse, CreateInvitePayload, InviteResponse, LoginPayload, ServerMember, SignupPayload,
};
use crate::store::Answer;
use crate::store_model::StoreModel;

verus! {

/// Serves the request of a step, if it has one: the store answers, and the
/// operation decides on its next step by `next`.
pub open spec fn serve<S, T, E>(
    store: StoreModel,
    step: Step<S, T, E>,
    next: spec_fn(S, Answer) -> Step<S, T, E>,
    now: Timestamp,
) -> (StoreModel, Step<S, T, E>) {
    match step {
        Step::Done(r) => (store, Step::Done(r)),
        Step::Ask(state, request) => {
            let (after, answer) = store.respond(request, now);
            (after, next(state, answer))
        },
    }
}

/// The result of a step that is done.
pub open spec fn outcome<S, T, E>(step: Step<S, T, E>) -> Option<Result<T, E>> {
    match step {
        Step::Done(r) => Some(r),
        Step::Ask(_, _) => None,
    }
}

/// A signup run to its end: what the store holds afterwards, and the
/// result. A signup asks the store twice at most.
pub open spec fn signup_run(
    store: StoreModel,
    payload: SignupPayload,
    draws: SignupDraws,
    now: Timestamp,
) -> (StoreModel, Option<Result<AuthResponse, AuthError>>) {
    let next = |state, answer| signup_step(state, answer, draws);
    let (store1, step1) = serve(store, signup_first(payload), next, now);
    let (store2, step2) = serve(store1, step1, next, now);
    (store2, outcome(step2))
}

/// A login run to its end. A login asks the store once.
pub open spec fn login_run(
    store: StoreModel,
    payload: LoginPayload,
    draws: LoginDraws,
    now: Timestamp,
) -> (StoreModel, Option<Result<AuthResponse, AuthError>>) {
    let next = |state, answer| login_step(state, answer, draws);
    let (store1, step1) = serve(store, login_first(payload), next, now);
    (store1, outcome(step1))
}

/// The redemption of an invite run to its end. A redemption asks the
/// store five times at most.
pub open spec fn accept_run(store: StoreModel, user_id: u128, code: String, now: Timestamp) -> (
    StoreModel,
    Option<Result<Seq<ServerMember>, InviteError>>,
) {
    let next = |state, answer| accept_step(state, answer, now);
    let (store1, step1) = serve(store, accept_first(user_id, code), next, now);
    let (store2, step2) = serve(store1, step1, next, now);
    let (store3, step3) = serve(store2, step2, next, now);
    let (store4, step4) = serve(store3, step3, next, now);
    let (store5, step5) = serve(store4, step4, next, now);
    (store5, outcome(step5))
}

/// How far a step of an invite's creation is from its end, counted in
/// requests that do not find the code taken.
pub open spec fn create_invite_distance(step: CreateInviteStep) -> nat {
    match step {
        Step::Ask(CreateInviteState::Probing(_), _) => 2,
        Step::Ask(CreateInviteState::Inserting(_), _) => 1,
        Step::Done(_) => 0,
    }
}

/// The creation of an invite continued to its end, with `codes` as the
/// codes still to be drawn, in order. A code is drawn each time the store
/// says that the code in hand is taken. There is no result where a code
/// is needed and none is left.
pub open spec fn create_invite_drive(
    store: StoreModel,
    step: CreateInviteStep,
    codes: Seq<String>,
    now: Timestamp,
) -> (StoreModel, Option<Result<InviteResponse, InviteError>>)
    decreases codes.len(), create_invite_distance(step),
{
    match step {
        Step::Done(r) => (store, Some(r)),
        Step::Ask(state, request) => {
            let (after, answer) = store.respond(request, now);
            if !code_taken(state, answer) {
                create_invite_drive(
                    after,
                    create_invite_step(state, answer, arbitrary()),
                    codes,
                    now,
                )
            } else if codes.len() == 0 {
                (after, None)
            } else {
                create_invite_drive(
                    after,
                    create_invite_step(state, answer, codes.first()),
                    codes.drop_first(),
                    now,
                )
            }
        },
    }
}

/// The creation of an invite run to its end, with `first` as the first
/// code drawn and `codes` as those drawn after it.
pub open spec fn create_invite_run(
    store: StoreModel,
    server_id: u128,
    creator_id: u128,
    payload: CreateInvitePayload,
    id: u128,
    first: String,
    codes: Seq<String>,
    now: Timestamp,
) -> (StoreModel, Option<Result<InviteResponse, InviteError>>) {
    create_invite_drive(
        store,
        create_invite_first(server_id, creator_id, payload, id, first),
        codes,
        now,
    )
}

} // verus!
