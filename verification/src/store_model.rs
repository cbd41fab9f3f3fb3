//! A mathematical model of the record store: what it holds, and how a
//! store that keeps its uniqueness constraints and never fails answers
//! each request.

use vstd::prelude::*;
use crate::clock::Timestamp;
use crate::model::{Invite, ServerMember, User};
use crate::store::{Answer, Request};

verus! {

/// The first element of `s` that satisfies `pred`, if there is one.
pub open spec fn first_match<T>(s: Seq<T>, pred: spec_fn(T) -> bool) -> Option<T>
    decreases s.len(),
{
    if s.len() == 0 {
        None
    } else {
        match first_match(s.drop_last(), pred) {
            Some(found) => Some(found),
            None => if pred(s.last()) {
                Some(s.last())
            } else {
                None
            },
        }
    }
}

/// No element satisfies `pred` exactly when `first_match` finds none, and
/// what it finds is an element that satisfies `pred`.
pub proof fn lemma_first_match<T>(s: Seq<T>, pred: spec_fn(T) -> bool)
    ensures
        first_match(s, pred) is None <==> forall|i: int| 0 <= i < s.len() ==> !pred(#[trigger] s[i]),
        first_match(s, pred) matches Some(found) ==> pred(found) && s.contains(found),
    decreases s.len(),
{
    if s.len() > 0 {
        lemma_first_match(s.drop_last(), pred);
        assert(forall|i: int| 0 <= i < s.len() - 1 ==> s.drop_last()[i] == s[i]);
        if first_match(s.drop_last(), pred) is Some {
            let found = first_match(s.drop_last(), pred)->Some_0;
            let i = choose|i: int| 0 <= i < s.drop_last().len() && s.drop_last()[i] == found;
            assert(s[i] == found);
        } else if pred(s.last()) {
            assert(s[s.len() - 1] == s.last());
        } else {
            assert forall|i: int| 0 <= i < s.len() implies !pred(#[trigger] s[i]) by {
                if i < s.len() - 1 {
                    assert(s.drop_last()[i] == s[i]);
                }
            }
        }
    }
}

/// Where at most one element satisfies `pred`, `first_match` finds each
/// element that does.
pub proof fn lemma_first_match_unique<T>(s: Seq<T>, pred: spec_fn(T) -> bool, k: int)
    requires
        0 <= k < s.len(),
        pred(s[k]),
        forall|i: int, j: int|
            0 <= i < s.len() && 0 <= j < s.len() && pred(#[trigger] s[i]) && pred(#[trigger] s[j])
                ==> i == j,
    ensures
        first_match(s, pred) == Some(s[k]),
{
    lemma_first_match(s, pred);
    let found = first_match(s, pred)->Some_0;
    let i = choose|i: int| 0 <= i < s.len() && s[i] == found;
    assert(pred(s[i]));
}

/// Where no element satisfies `pred`, filtering by it leaves nothing.
pub proof fn lemma_filter_none<T>(s: Seq<T>, pred: spec_fn(T) -> bool)
    requires
        forall|i: int| 0 <= i < s.len() ==> !pred(#[trigger] s[i]),
    ensures
        s.filter(pred) == Seq::<T>::empty(),
    decreases s.len(),
{
    reveal(Seq::filter);
    if s.len() > 0 {
        assert(forall|i: int| 0 <= i < s.len() - 1 ==> s.drop_last()[i] == s[i]);
        lemma_filter_none(s.drop_last(), pred);
    }
}

/// Where at most the element at `k` and those after it satisfy `pred`,
/// and the one at `k` does, `first_match` finds the one at `k`.
pub proof fn lemma_first_match_at<T>(s: Seq<T>, pred: spec_fn(T) -> bool, k: int)
    requires
        0 <= k < s.len(),
        pred(s[k]),
        forall|j: int| 0 <= j < k ==> !pred(#[trigger] s[j]),
    ensures
        first_match(s, pred) == Some(s[k]),
    decreases s.len(),
{
    assert(forall|i: int| 0 <= i < s.len() - 1 ==> s.drop_last()[i] == s[i]);
    if k == s.len() - 1 {
        lemma_first_match(s.drop_last(), pred);
    } else {
        lemma_first_match_at(s.drop_last(), pred, k);
    }
}

/// The invite with one more use, if it has the id `id` and its count can
/// still grow; the invite itself otherwise.
pub open spec fn used_once_more_if(invite: Invite, id: u128) -> Invite {
    if invite.id == id && invite.uses < i32::MAX {
        Invite { uses: (invite.uses + 1) as i32, ..invite }
    } else {
        invite
    }
}

/// What the store holds.
pub struct StoreModel {
    pub users: Seq<User>,
    pub invites: Seq<Invite>,
    pub members: Seq<ServerMember>,
}

impl StoreModel {
    /// A store that holds nothing.
    pub open spec fn empty() -> StoreModel {
        StoreModel { users: Seq::empty(), invites: Seq::empty(), members: Seq::empty() }
    }

    /// The user with this email, if any. Emails are compared as stored.
    pub open spec fn user_by_email(self, email: Seq<char>) -> Option<User> {
        first_match(self.users, |u: User| u.email@ == email)
    }

    /// The user with this id, if any.
    pub open spec fn user_by_id(self, id: u128) -> Option<User> {
        first_match(self.users, |u: User| u.id == id)
    }

    /// The invite with this code, if any.
    pub open spec fn invite_by_code(self, code: Seq<char>) -> Option<Invite> {
        first_match(self.invites, |i: Invite| i.code@ == code)
    }

    /// The invite with this id, if any.
    pub open spec fn invite_by_id(self, id: u128) -> Option<Invite> {
        first_match(self.invites, |i: Invite| i.id == id)
    }

    /// The membership of this user in this server, if any.
    pub open spec fn member(self, server_id: u128, user_id: u128) -> Option<ServerMember> {
        first_match(
            self.members,
            |m: ServerMember| m.server_id == server_id && m.user_id == user_id,
        )
    }

    /// All memberships of this server, in the order they were made.
    pub open spec fn members_of(self, server_id: u128) -> Seq<ServerMember> {
        self.members.filter(|m: ServerMember| m.server_id == server_id)
    }

    /// The memberships of this user in this server; the store's constraint
    /// allows one at most.
    pub open spec fn memberships(self, server_id: u128, user_id: u128) -> Seq<ServerMember> {
        self.members.filter(|m: ServerMember| m.server_id == server_id && m.user_id == user_id)
    }

    /// The invites with one more use on the invite with this id.
    pub open spec fn invites_with_use(self, id: u128) -> Seq<Invite> {
        self.invites.map_values(|i: Invite| used_once_more_if(i, id))
    }

    /// The uniqueness constraints: no two users share an email or an id, no
    /// two invites share a code or an id, and no two memberships are of the
    /// same user in the same server.
    pub open spec fn constrained(self) -> bool {
        &&& forall|i: int, j: int|
            0 <= i < self.users.len() && 0 <= j < self.users.len() && i != j ==> {
                &&& (#[trigger] self.users[i]).email@ != (#[trigger] self.users[j]).email@
                &&& self.users[i].id != self.users[j].id
            }
        &&& forall|i: int, j: int|
            0 <= i < self.invites.len() && 0 <= j < self.invites.len() && i != j ==> {
                &&& (#[trigger] self.invites[i]).code@ != (#[trigger] self.invites[j]).code@
                &&& self.invites[i].id != self.invites[j].id
            }
        &&& forall|i: int, j: int|
            0 <= i < self.members.len() && 0 <= j < self.members.len() && i != j ==> {
                ||| (#[trigger] self.members[i]).server_id != (#[trigger] self.members[j]).server_id
                ||| self.members[i].user_id != self.members[j].user_id
            }
    }

    /// No invite has been used more often than its limit allows, and none
    /// has a negative use count.
    pub open spec fn within_limits(self) -> bool {
        forall|i: int|
            0 <= i < self.invites.len() ==> {
                &&& 0 <= (#[trigger] self.invites[i]).uses
                &&& (self.invites[i].max_uses matches Some(limit) ==> self.invites[i].uses <= limit)
            }
    }

    /// How the store answers a request at the instant `now`, and what it
    /// holds afterwards.
    ///
    /// Lookups change nothing. An insert that would break a uniqueness
    /// constraint is answered with `Conflict` and changes nothing;
    /// otherwise the record is appended, a user without an avatar, an
    /// invite with no uses and not revoked, both created at `now`.
    /// Counting a use adds one to the invite with the id; it changes
    /// nothing where there is no such invite, and is refused where the
    /// count cannot grow.
    pub open spec fn respond(self, request: Request, now: Timestamp) -> (StoreModel, Answer) {
        match request {
            Request::EmailExists { email } => (
                self,
                Answer::Exists(self.user_by_email(email@) is Some),
            ),
            Request::InsertUser { id, email, password_hash, username } => {
                if self.user_by_email(email@) is Some || self.user_by_id(id) is Some {
                    (self, Answer::Conflict)
                } else {
                    let user = User {
                        id,
                        email,
                        password_hash,
                        username,
                        avatar_url: None,
                        created_at: now,
                    };
                    (StoreModel { users: self.users.push(user), ..self }, Answer::User(user))
                }
            },
            Request::FindUserByEmail { email } => (
                self,
                Answer::MaybeUser(self.user_by_email(email@)),
            ),
            Request::FindUserById { id } => (self, Answer::MaybeUser(self.user_by_id(id))),
            Request::InsertInvite { id, code, server_id, created_by, max_uses, expires_at } => {
                if self.invite_by_code(code@) is Some || self.invite_by_id(id) is Some {
                    (self, Answer::Conflict)
                } else {
                    let invite = Invite {
                        id,
                        code,
                        server_id,
                        created_by,
                        max_uses,
                        uses: 0,
                        expires_at,
                        revoked: false,
                        created_at: now,
                    };
                    (
                        StoreModel { invites: self.invites.push(invite), ..self },
                        Answer::Invite(invite),
                    )
                }
            },
            Request::FindInviteByCode { code } => (
                self,
                Answer::MaybeInvite(self.invite_by_code(code@)),
            ),
            Request::IncrementUse { id } => match self.invite_by_id(id) {
                None => (self, Answer::Unit),
                Some(invite) => if invite.uses < i32::MAX {
                    (StoreModel { invites: self.invites_with_use(id), ..self }, Answer::Unit)
                } else {
                    (self, Answer::Conflict)
                },
            },
            Request::FindMember { server_id, user_id } => (
                self,
                Answer::MaybeMember(self.member(server_id, user_id)),
            ),
            Request::AddMember { server_id, user_id, role } => {
                if self.member(server_id, user_id) is Some {
                    (self, Answer::Conflict)
                } else {
                    let member = ServerMember { server_id, user_id, role };
                    (StoreModel { members: self.members.push(member), ..self }, Answer::Unit)
                }
            },
            Request::ListMembers { server_id } => (
                self,
                Answer::Members(self.members_of(server_id)),
            ),
        }
    }
}

/// Whatever is asked of it, the store keeps its uniqueness constraints.
pub proof fn lemma_respond_keeps_constraints(store: StoreModel, request: Request, now: Timestamp)
    requires
        store.constrained(),
    ensures
        store.respond(request, now).0.constrained(),
{
    let after = store.respond(request, now).0;
    match request {
        Request::InsertUser { id, email, password_hash, username } => {
            lemma_first_match(store.users, |u: User| u.email@ == email@);
            lemma_first_match(store.users, |u: User| u.id == id);
        },
        Request::InsertInvite { id, code, server_id, created_by, max_uses, expires_at } => {
            lemma_first_match(store.invites, |i: Invite| i.code@ == code@);
            lemma_first_match(store.invites, |i: Invite| i.id == id);
        },
        Request::AddMember { server_id, user_id, role } => {
            lemma_first_match(
                store.members,
                |m: ServerMember| m.server_id == server_id && m.user_id == user_id,
            );
        },
        _ => {},
    }
}

/// Records are never deleted, and the use count of an invite never goes
/// down: whatever is asked of the store, every user, invite and membership
/// it held is still there, in its place, unchanged but for the use count
/// of an invite, which is the same or greater.
pub proof fn lemma_records_are_kept(store: StoreModel, request: Request, now: Timestamp)
    ensures
        ({
            let after = store.respond(request, now).0;
            &&& after.users.len() >= store.users.len()
            &&& after.invites.len() >= store.invites.len()
            &&& after.members.len() >= store.members.len()
            &&& forall|i: int| 0 <= i < store.users.len() ==> #[trigger] after.users[i] == store.users[i]
            &&& forall|i: int|
                0 <= i < store.members.len() ==> #[trigger] after.members[i] == store.members[i]
            &&& forall|i: int|
                0 <= i < store.invites.len() ==> (#[trigger] after.invites[i]).uses
                    >= store.invites[i].uses && after.invites[i] == (Invite {
                    uses: after.invites[i].uses,
                    ..store.invites[i]
                })
        }),
{
}

} // verus!
