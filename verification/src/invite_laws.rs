//! What holds of invites when they are created and redeemed against a
//! store that keeps its uniqueness constraints.

use vstd::prelude::*;
use crate::clock::Timestamp;
use crate::error::InviteError;
use crate::flow::Step;
use crate::invite::{
    accept_step, code_taken, create_invite_first, create_invite_step, is_code, AcceptState,
    CreateInviteState, CreateInviteStep, InviteDraft, CODE_LEN,
};
use crate::model::{CreateInvitePayload, Invite, InviteResponse, MemberRole, ServerMember};
use crate::store::Answer;
use crate::run::{
    accept_run, create_invite_distance, create_invite_drive, create_invite_run, outcome, serve,
};
use crate::store_model::{
    lemma_filter_none, lemma_first_match, lemma_first_match_unique, StoreModel,
};

verus! {

/// Redeeming a code that no invite has fails with `InviteNotFound` and
/// changes nothing.
pub proof fn lemma_unknown_code_is_not_found(
    store: StoreModel,
    user_id: u128,
    code: String,
    now: Timestamp,
)
    requires
        store.invite_by_code(code@) is None,
    ensures
        accept_run(store, user_id, code, now) == (
            store,
            Some(Err::<Seq<ServerMember>, InviteError>(InviteError::InviteNotFound)),
        ),
{
}

/// Redemption is all or nothing: an invite that is revoked, expired or
/// used up at the time of redemption is refused with `InviteInvalid`, and
/// nothing is written: no membership is made and no use is counted.
pub proof fn lemma_unusable_invite_is_refused(
    store: StoreModel,
    user_id: u128,
    code: String,
    now: Timestamp,
)
    requires
        store.invite_by_code(code@) matches Some(invite) && !invite.usable_at(now),
    ensures
        accept_run(store, user_id, code, now) == (
            store,
            Some(Err::<Seq<ServerMember>, InviteError>(InviteError::InviteInvalid)),
        ),
{
}

/// An invite whose use count has reached its limit cannot be redeemed, at
/// any time and by any user.
pub proof fn lemma_used_up_invite_is_refused(
    store: StoreModel,
    user_id: u128,
    code: String,
    now: Timestamp,
)
    requires
        store.invite_by_code(code@) matches Some(invite) && invite.max_uses matches Some(limit)
            && invite.uses >= limit,
    ensures
        accept_run(store, user_id, code, now) == (
            store,
            Some(Err::<Seq<ServerMember>, InviteError>(InviteError::InviteInvalid)),
        ),
{
}

/// The invite with one more use.
pub open spec fn used_once_more(invite: Invite) -> Invite {
    Invite { uses: (invite.uses + 1) as i32, ..invite }
}

/// Counting a use of an invite that the store holds changes that invite
/// alone: it has one more use, and is still found by its code.
proof fn lemma_count_use(store: StoreModel, invite: Invite)
    requires
        store.constrained(),
        store.invite_by_code(invite.code@) == Some(invite),
        invite.uses < i32::MAX,
    ensures
        store.invite_by_id(invite.id) == Some(invite),
        ({
            let after = StoreModel { invites: store.invites_with_use(invite.id), ..store };
            &&& after.constrained()
            &&& after.invite_by_code(invite.code@) == Some(used_once_more(invite))
            &&& forall|i: int|
                0 <= i < store.invites.len() ==> #[trigger] after.invites[i] == (if store.invites[i]
                    == invite {
                    used_once_more(invite)
                } else {
                    store.invites[i]
                })
            &&& after.invites.len() == store.invites.len()
        }),
{
    let after = StoreModel { invites: store.invites_with_use(invite.id), ..store };
    lemma_first_match(store.invites, |i: Invite| i.code@ == invite.code@);
    let k = choose|k: int| 0 <= k < store.invites.len() && store.invites[k] == invite;
    lemma_first_match_unique(store.invites, |i: Invite| i.id == invite.id, k);
    assert(after.invites[k] == used_once_more(invite));
    assert forall|i: int| 0 <= i < store.invites.len() implies #[trigger] after.invites[i] == (
    if store.invites[i] == invite {
        used_once_more(invite)
    } else {
        store.invites[i]
    }) by {
        if i != k {
            assert(store.invites[i].id != store.invites[k].id);
        }
    }
    assert(after.constrained());
    lemma_first_match_unique(after.invites, |i: Invite| i.code@ == invite.code@, k);
}

/// A user who is no member of the invite's server redeems a usable invite:
/// the redemption succeeds with the server's member list, the user is now
/// a member with the role `Member`, exactly once, and the invite has one
/// more use.
pub proof fn lemma_first_redemption(
    store: StoreModel,
    user_id: u128,
    code: String,
    now: Timestamp,
)
    requires
        store.constrained(),
        store.invite_by_code(code@) matches Some(invite) && invite.usable_at(now) && invite.uses
            < i32::MAX && store.member(invite.server_id, user_id) is None,
    ensures
        ({
            let invite = store.invite_by_code(code@)->Some_0;
            let member = ServerMember {
                server_id: invite.server_id,
                user_id,
                role: MemberRole::Member,
            };
            let (after, result) = accept_run(store, user_id, code, now);
            &&& after == StoreModel {
                members: store.members.push(member),
                invites: store.invites_with_use(invite.id),
                ..store
            }
            &&& result == Some(
                Ok::<Seq<ServerMember>, InviteError>(after.members_of(invite.server_id)),
            )
            &&& after.members_of(invite.server_id) == store.members_of(invite.server_id).push(
                member,
            )
            &&& after.memberships(invite.server_id, user_id) == seq![member]
            &&& after.member(invite.server_id, user_id) == Some(member)
            &&& after.invite_by_code(code@) == Some(used_once_more(invite))
            &&& after.constrained()
        }),
{
    let invite = store.invite_by_code(code@)->Some_0;
    let server_id = invite.server_id;
    let member = ServerMember { server_id, user_id, role: MemberRole::Member };
    lemma_first_match(store.invites, |i: Invite| i.code@ == code@);
    let added = StoreModel { members: store.members.push(member), ..store };
    let pair = |m: ServerMember| m.server_id == server_id && m.user_id == user_id;
    let of_server = |m: ServerMember| m.server_id == server_id;
    lemma_first_match(store.members, pair);
    assert(added.constrained());
    lemma_count_use(added, invite);
    let after = StoreModel { invites: added.invites_with_use(invite.id), ..added };
    lemma_filter_none(store.members, pair);
    store.members.lemma_filter_push(member, pair);
    store.members.lemma_filter_push(member, of_server);
    assert(after.memberships(server_id, user_id) == seq![member]);
    assert(after.members_of(server_id) == store.members_of(server_id).push(member));
    assert(after.members[store.members.len() as int] == member);
    lemma_first_match_unique(after.members, pair, store.members.len() as int);
}

/// A user who is already a member of the invite's server redeems a usable
/// invite again: the redemption succeeds with the server's member list, no
/// membership is added, and the use is counted once more, as
/// `COUNT_REPEAT_REDEMPTIONS` says.
pub proof fn lemma_repeat_redemption(
    store: StoreModel,
    user_id: u128,
    code: String,
    now: Timestamp,
)
    requires
        store.constrained(),
        store.invite_by_code(code@) matches Some(invite) && invite.usable_at(now) && invite.uses
            < i32::MAX && store.member(invite.server_id, user_id) is Some,
    ensures
        ({
            let invite = store.invite_by_code(code@)->Some_0;
            let (after, result) = accept_run(store, user_id, code, now);
            &&& after == StoreModel { invites: store.invites_with_use(invite.id), ..store }
            &&& result == Some(
                Ok::<Seq<ServerMember>, InviteError>(store.members_of(invite.server_id)),
            )
            &&& after.invite_by_code(code@) == Some(used_once_more(invite))
            &&& after.constrained()
        }),
{
    let invite = store.invite_by_code(code@)->Some_0;
    lemma_first_match(store.invites, |i: Invite| i.code@ == code@);
    lemma_count_use(store, invite);
}

/// A redemption that found the user to be no member, and whose insert the
/// store then refuses because the user became a member in the meantime,
/// makes no second membership and is no error: it goes on to count the
/// use and ends with the server's member list.
pub proof fn lemma_late_membership_is_a_repeat(
    store: StoreModel,
    user_id: u128,
    server_id: u128,
    invite_id: u128,
    now: Timestamp,
)
    requires
        store.member(server_id, user_id) is Some,
        store.invite_by_id(invite_id) matches Some(invite) ==> invite.uses < i32::MAX,
    ensures
        ({
            let next = |state, answer| accept_step(state, answer, now);
            let checked = accept_step(
                AcceptState::Checking { user_id, server_id, invite_id },
                Answer::MaybeMember(None),
                now,
            );
            let (store1, added) = serve(store, checked, next, now);
            let (store2, counted) = serve(store1, added, next, now);
            let (store3, listed) = serve(store2, counted, next, now);
            &&& store1 == store
            &&& store3.members == store.members
            &&& store3.invites == store.invites_with_use(invite_id)
            &&& outcome(listed) == Some(
                Ok::<Seq<ServerMember>, InviteError>(store.members_of(server_id)),
            )
        }),
{
    if store.invite_by_id(invite_id) is None {
        lemma_first_match(store.invites, |i: Invite| i.id == invite_id);
        assert(store.invites_with_use(invite_id) =~= store.invites);
    }
}

/// Redeeming a valid invite twice with the same user makes exactly one
/// membership of that user in the server, and counts two uses.
pub proof fn lemma_redeeming_twice_makes_one_membership(
    store: StoreModel,
    user_id: u128,
    code: String,
    first: Timestamp,
    second: Timestamp,
)
    requires
        store.constrained(),
        store.invite_by_code(code@) matches Some(invite) && invite.usable_at(first)
            && used_once_more(invite).usable_at(second) && invite.uses < i32::MAX - 1
            && store.member(invite.server_id, user_id) is None,
    ensures
        ({
            let invite = store.invite_by_code(code@)->Some_0;
            let member = ServerMember {
                server_id: invite.server_id,
                user_id,
                role: MemberRole::Member,
            };
            let (once, first_result) = accept_run(store, user_id, code, first);
            let (twice, second_result) = accept_run(once, user_id, code, second);
            &&& first_result matches Some(Ok(_))
            &&& second_result == first_result
            &&& twice.members == store.members.push(member)
            &&& twice.memberships(invite.server_id, user_id) == seq![member]
            &&& twice.invite_by_code(code@) == Some(used_once_more(used_once_more(invite)))
        }),
{
    lemma_first_redemption(store, user_id, code, first);
    let once = accept_run(store, user_id, code, first).0;
    lemma_repeat_redemption(once, user_id, code, second);
}

/// Redemption never takes an invite past its limit: where every invite in
/// the store is within its limit, it still is after a redemption, of
/// whatever code, by whatever user, at whatever time.
pub proof fn lemma_redemption_keeps_limits(
    store: StoreModel,
    user_id: u128,
    code: String,
    now: Timestamp,
)
    requires
        store.constrained(),
        store.within_limits(),
    ensures
        accept_run(store, user_id, code, now).0.within_limits(),
        accept_run(store, user_id, code, now).0.constrained(),
{
    let after = accept_run(store, user_id, code, now).0;
    lemma_first_match(store.invites, |i: Invite| i.code@ == code@);
    if store.invite_by_code(code@) is Some {
        let invite = store.invite_by_code(code@)->Some_0;
        if invite.usable_at(now) {
            let server_id = invite.server_id;
            let member = ServerMember { server_id, user_id, role: MemberRole::Member };
            let pair = |m: ServerMember| m.server_id == server_id && m.user_id == user_id;
            lemma_first_match(store.members, pair);
            let joined = if store.member(server_id, user_id) is None {
                StoreModel { members: store.members.push(member), ..store }
            } else {
                store
            };
            assert(joined.constrained());
            lemma_first_match(joined.invites, |i: Invite| i.code@ == invite.code@);
            let k = choose|k: int| 0 <= k < joined.invites.len() && joined.invites[k] == invite;
            lemma_first_match_unique(joined.invites, |i: Invite| i.id == invite.id, k);
            if invite.uses < i32::MAX {
                lemma_count_use(joined, invite);
                assert(after == StoreModel { invites: joined.invites_with_use(invite.id), ..joined });
                assert forall|i: int| 0 <= i < after.invites.len() implies {
                    &&& 0 <= (#[trigger] after.invites[i]).uses
                    &&& (after.invites[i].max_uses matches Some(limit) ==> after.invites[i].uses
                        <= limit)
                } by {
                    assert(0 <= store.invites[i].uses);
                }
            } else {
                assert(after == joined);
            }
        }
    }
}

/// The invite that a creation stores: the terms of the draft under the
/// code that was free, no uses, not revoked, created at `now`.
pub open spec fn created_invite(terms: InviteDraft, code: String, now: Timestamp) -> Invite {
    Invite {
        id: terms.id,
        code,
        server_id: terms.server_id,
        created_by: terms.created_by,
        max_uses: terms.max_uses,
        uses: 0,
        expires_at: terms.expires_at,
        revoked: false,
        created_at: now,
    }
}

/// The step asks the store about a draft that has the terms of `terms`
/// and carries a code of the fixed length and alphabet.
pub open spec fn drafting(step: CreateInviteStep, terms: InviteDraft) -> bool {
    match step {
        Step::Ask(CreateInviteState::Probing(draft), request) => {
            &&& draft.with_code(terms.code) == (InviteDraft { probes: draft.probes, ..terms })
            &&& is_code(draft.code@, CODE_LEN as nat)
            &&& request == draft.probe()
        },
        Step::Ask(CreateInviteState::Inserting(draft), request) => {
            &&& draft.with_code(terms.code) == (InviteDraft { probes: draft.probes, ..terms })
            &&& is_code(draft.code@, CODE_LEN as nat)
            &&& request == draft.insertion()
        },
        Step::Done(_) => false,
    }
}

/// What a creation has done to the store when it ends with `result`:
/// nothing, where there is no result; otherwise it has appended one
/// invite, whose code no invite had before.
pub open spec fn creation_settled(
    store: StoreModel,
    terms: InviteDraft,
    now: Timestamp,
    after: StoreModel,
    result: Option<Result<InviteResponse, InviteError>>,
) -> bool {
    match result {
        None => after == store,
        Some(Err(_)) => false,
        Some(Ok(response)) => {
            let invite = created_invite(terms, response.code, now);
            &&& response == invite.outward()
            &&& is_code(response.code@, CODE_LEN as nat)
            &&& store.invite_by_code(response.code@) is None
            &&& after == StoreModel { invites: store.invites.push(invite), ..store }
            &&& after.invite_by_code(response.code@) == Some(invite)
            &&& after.constrained()
        },
    }
}

proof fn lemma_creation_continues(
    store: StoreModel,
    step: CreateInviteStep,
    terms: InviteDraft,
    codes: Seq<String>,
    now: Timestamp,
)
    requires
        store.constrained(),
        drafting(step, terms),
        forall|i: int| 0 <= i < codes.len() ==> is_code((#[trigger] codes[i])@, CODE_LEN as nat),
    ensures
        ({
            let (after, result) = create_invite_drive(store, step, codes, now);
            creation_settled(store, terms, now, after, result)
        }),
    decreases codes.len(), create_invite_distance(step),
{
    match step {
        Step::Done(_) => {},
        Step::Ask(state, request) => {
            let (served, answer) = store.respond(request, now);
            if code_taken(state, answer) {
                if codes.len() > 0 {
                    let next = create_invite_step(state, answer, codes.first());
                    assert(is_code(codes[0]@, CODE_LEN as nat));
                    assert forall|i: int| 0 <= i < codes.drop_first().len() implies is_code(
                        (#[trigger] codes.drop_first()[i])@,
                        CODE_LEN as nat,
                    ) by {
                        assert(codes.drop_first()[i] == codes[i + 1]);
                    }
                    lemma_creation_continues(store, next, terms, codes.drop_first(), now);
                }
            } else {
                let next = create_invite_step(state, answer, arbitrary());
                match state {
                    CreateInviteState::Probing(draft) => {
                        lemma_creation_continues(store, next, terms, codes, now);
                    },
                    CreateInviteState::Inserting(draft) => {
                        let invite = created_invite(terms, draft.code, now);
                        lemma_first_match(store.invites, |i: Invite| i.code@ == draft.code@);
                        lemma_first_match(store.invites, |i: Invite| i.id == draft.id);
                        assert(served.invites[store.invites.len() as int] == invite);
                        lemma_first_match_unique(
                            served.invites,
                            |i: Invite| i.code@ == draft.code@,
                            store.invites.len() as int,
                        );
                        assert(create_invite_drive(served, next, codes, now) == (
                            served,
                            Some(Ok::<InviteResponse, InviteError>(invite.outward())),
                        ));
                    },
                }
            }
        },
    }
}

/// The terms of a new invite as a draft.
pub open spec fn invite_terms(
    server_id: u128,
    creator_id: u128,
    payload: CreateInvitePayload,
    id: u128,
    code: String,
) -> InviteDraft {
    InviteDraft {
        id,
        server_id,
        created_by: creator_id,
        max_uses: payload.max_uses,
        expires_at: payload.expires_at,
        code,
        probes: 0,
    }
}

/// A created invite has a code that no invite in the store had at the
/// time, of the fixed length and alphabet. However the codes fall, the
/// creation never ends in an error against a store that does not fail: a
/// taken code is redrawn, also when only the insert finds it taken. On
/// success the store holds one invite more, with the terms asked for and
/// no uses, and keeps its constraints; the caller gets that invite's
/// outward form.
pub proof fn lemma_created_invite_has_new_code(
    store: StoreModel,
    server_id: u128,
    creator_id: u128,
    payload: CreateInvitePayload,
    id: u128,
    first: String,
    codes: Seq<String>,
    now: Timestamp,
)
    requires
        store.constrained(),
        is_code(first@, CODE_LEN as nat),
        forall|i: int| 0 <= i < codes.len() ==> is_code((#[trigger] codes[i])@, CODE_LEN as nat),
    ensures
        ({
            let (after, result) = create_invite_run(
                store,
                server_id,
                creator_id,
                payload,
                id,
                first,
                codes,
                now,
            );
            creation_settled(
                store,
                invite_terms(server_id, creator_id, payload, id, first),
                now,
                after,
                result,
            )
        }),
{
    let terms = invite_terms(server_id, creator_id, payload, id, first);
    lemma_creation_continues(
        store,
        create_invite_first(server_id, creator_id, payload, id, first),
        terms,
        codes,
        now,
    );
}

/// Where the first code drawn is free and the id is new, the invite is
/// created under that code without a further draw.
pub proof fn lemma_free_code_is_used(
    store: StoreModel,
    server_id: u128,
    creator_id: u128,
    payload: CreateInvitePayload,
    id: u128,
    first: String,
    codes: Seq<String>,
    now: Timestamp,
)
    requires
        store.invite_by_code(first@) is None,
        store.invite_by_id(id) is None,
    ensures
        create_invite_run(store, server_id, creator_id, payload, id, first, codes, now).1 == Some(
            Ok::<InviteResponse, InviteError>(
                created_invite(
                    invite_terms(server_id, creator_id, payload, id, first),
                    first,
                    now,
                ).outward(),
            ),
        ),
{
    reveal_with_fuel(create_invite_drive, 3);
}

/// A new invite is within its limit when the limit asked for is not
/// negative, so creation keeps every invite within its limit.
pub proof fn lemma_creation_keeps_limits(
    store: StoreModel,
    server_id: u128,
    creator_id: u128,
    payload: CreateInvitePayload,
    id: u128,
    first: String,
    codes: Seq<String>,
    now: Timestamp,
)
    requires
        store.constrained(),
        store.within_limits(),
        payload.max_uses matches Some(limit) ==> limit >= 0,
        is_code(first@, CODE_LEN as nat),
        forall|i: int| 0 <= i < codes.len() ==> is_code((#[trigger] codes[i])@, CODE_LEN as nat),
    ensures
        create_invite_run(
            store,
            server_id,
            creator_id,
            payload,
            id,
            first,
            codes,
            now,
        ).0.within_limits(),
{
    lemma_created_invite_has_new_code(
        store,
        server_id,
        creator_id,
        payload,
        id,
        first,
        codes,
        now,
    );
}

} // verus!
