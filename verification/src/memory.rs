//! A record store held in memory. It answers every request as the model
//! of the store does, and serves to try the operations out and to test
//! them; a deployment keeps its records in a database.

use vstd::prelude::*;
use crate::clock::Timestamp;
use crate::model::{Invite, ServerMember, User};
use crate::store::{Reply, Request};
use crate::store_model::{
    lemma_first_match, lemma_first_match_at, used_once_more_if, StoreModel,
};

verus! {

/// The records, in the order they were inserted.
#[derive(Debug)]
pub struct MemoryStore {
    pub users: Vec<User>,
    pub invites: Vec<Invite>,
    pub members: Vec<ServerMember>,
}

impl View for MemoryStore {
    type V = StoreModel;

    open spec fn view(&self) -> StoreModel {
        StoreModel { users: self.users@, invites: self.invites@, members: self.members@ }
    }
}

/// A copy of a user record.
fn copy_user(user: &User) -> (copy: User)
    ensures
        copy == *user,
{
    User {
        id: user.id,
        email: user.email.clone(),
        password_hash: user.password_hash.clone(),
        username: user.username.clone(),
        avatar_url: match &user.avatar_url {
            Some(url) => Some(url.clone()),
            None => None,
        },
        created_at: user.created_at,
    }
}

/// A copy of an invite record.
fn copy_invite(invite: &Invite) -> (copy: Invite)
    ensures
        copy == *invite,
{
    Invite {
        id: invite.id,
        code: invite.code.clone(),
        server_id: invite.server_id,
        created_by: invite.created_by,
        max_uses: invite.max_uses,
        uses: invite.uses,
        expires_at: invite.expires_at,
        revoked: invite.revoked,
        created_at: invite.created_at,
    }
}

impl MemoryStore {
    /// A store that holds nothing.
    pub fn new() -> (store: MemoryStore)
        ensures
            store@ == StoreModel::empty(),
    {
        MemoryStore { users: Vec::new(), invites: Vec::new(), members: Vec::new() }
    }

    /// The user with this email, if any.
    pub fn user_by_email(&self, email: &String) -> (found: Option<User>)
        ensures
            found == self@.user_by_email(email@),
    {
        let ghost pred = |u: User| u.email@ == email@;
        let mut i: usize = 0;
        while i < self.users.len()
            invariant
                i <= self.users.len(),
                pred == (|u: User| u.email@ == email@),
                forall|j: int| 0 <= j < i ==> !pred(#[trigger] self.users@[j]),
            decreases self.users.len() - i,
        {
            if self.users[i].email == *email {
                proof {
                    lemma_first_match_at(self.users@, pred, i as int);
                }
                return Some(copy_user(&self.users[i]));
            }
            i = i + 1;
        }
        proof {
            lemma_first_match(self.users@, pred);
        }
        None
    }

    /// The user with this id, if any.
    pub fn user_by_id(&self, id: u128) -> (found: Option<User>)
        ensures
            found == self@.user_by_id(id),
    {
        let ghost pred = |u: User| u.id == id;
        let mut i: usize = 0;
        while i < self.users.len()
            invariant
                i <= self.users.len(),
                pred == (|u: User| u.id == id),
                forall|j: int| 0 <= j < i ==> !pred(#[trigger] self.users@[j]),
            decreases self.users.len() - i,
        {
            if self.users[i].id == id {
                proof {
                    lemma_first_match_at(self.users@, pred, i as int);
                }
                return Some(copy_user(&self.users[i]));
            }
            i = i + 1;
        }
        proof {
            lemma_first_match(self.users@, pred);
        }
        None
    }

    /// The invite with this code, if any.
    pub fn invite_by_code(&self, code: &String) -> (found: Option<Invite>)
        ensures
            found == self@.invite_by_code(code@),
    {
        let ghost pred = |i: Invite| i.code@ == code@;
        let mut i: usize = 0;
        while i < self.invites.len()
            invariant
                i <= self.invites.len(),
                pred == (|i: Invite| i.code@ == code@),
                forall|j: int| 0 <= j < i ==> !pred(#[trigger] self.invites@[j]),
            decreases self.invites.len() - i,
        {
            if self.invites[i].code == *code {
                proof {
                    lemma_first_match_at(self.invites@, pred, i as int);
                }
                return Some(copy_invite(&self.invites[i]));
            }
            i = i + 1;
        }
        proof {
            lemma_first_match(self.invites@, pred);
        }
        None
    }

    /// The invite with this id, if any.
    pub fn invite_by_id(&self, id: u128) -> (found: Option<Invite>)
        ensures
            found == self@.invite_by_id(id),
    {
        let ghost pred = |i: Invite| i.id == id;
        let mut i: usize = 0;
        while i < self.invites.len()
            invariant
                i <= self.invites.len(),
                pred == (|i: Invite| i.id == id),
                forall|j: int| 0 <= j < i ==> !pred(#[trigger] self.invites@[j]),
            decreases self.invites.len() - i,
        {
            if self.invites[i].id == id {
                proof {
                    lemma_first_match_at(self.invites@, pred, i as int);
                }
                return Some(copy_invite(&self.invites[i]));
            }
            i = i + 1;
        }
        proof {
            lemma_first_match(self.invites@, pred);
        }
        None
    }

    /// The membership of this user in this server, if any.
    pub fn member(&self, server_id: u128, user_id: u128) -> (found: Option<ServerMember>)
        ensures
            found == self@.member(server_id, user_id),
    {
        let ghost pred = |m: ServerMember| m.server_id == server_id && m.user_id == user_id;
        let mut i: usize = 0;
        while i < self.members.len()
            invariant
                i <= self.members.len(),
                pred == (|m: ServerMember| m.server_id == server_id && m.user_id == user_id),
                forall|j: int| 0 <= j < i ==> !pred(#[trigger] self.members@[j]),
            decreases self.members.len() - i,
        {
            if self.members[i].server_id == server_id && self.members[i].user_id == user_id {
                proof {
                    lemma_first_match_at(self.members@, pred, i as int);
                }
                return Some(self.members[i]);
            }
            i = i + 1;
        }
        proof {
            lemma_first_match(self.members@, pred);
        }
        None
    }

    /// All memberships of this server, in the order they were made.
    pub fn members_of(&self, server_id: u128) -> (list: Vec<ServerMember>)
        ensures
            list@ == self@.members_of(server_id),
    {
        let ghost pred = |m: ServerMember| m.server_id == server_id;
        let mut list: Vec<ServerMember> = Vec::new();
        let mut i: usize = 0;
        proof {
            reveal(Seq::filter);
            assert(self.members@.take(0) == Seq::<ServerMember>::empty());
        }
        while i < self.members.len()
            invariant
                i <= self.members.len(),
                pred == (|m: ServerMember| m.server_id == server_id),
                list@ == self.members@.take(i as int).filter(pred),
            decreases self.members.len() - i,
        {
            proof {
                assert(self.members@.take(i + 1) == self.members@.take(i as int).push(
                    self.members@[i as int],
                ));
                self.members@.take(i as int).lemma_filter_push(self.members@[i as int], pred);
            }
            if self.members[i].server_id == server_id {
                list.push(self.members[i]);
            }
            i = i + 1;
        }
        proof {
            assert(self.members@.take(i as int) == self.members@);
        }
        list
    }

    /// The invites with one more use on the invite with this id.
    fn invites_with_use(&self, id: u128) -> (list: Vec<Invite>)
        ensures
            list@ == self@.invites_with_use(id),
    {
        let mut list: Vec<Invite> = Vec::new();
        let mut i: usize = 0;
        while i < self.invites.len()
            invariant
                i <= self.invites.len(),
                list.len() == i,
                forall|j: int| 0 <= j < i ==> list@[j] == used_once_more_if(self.invites@[j], id),
            decreases self.invites.len() - i,
        {
            let mut invite = copy_invite(&self.invites[i]);
            if invite.id == id && invite.uses < i32::MAX {
                invite.uses = invite.uses + 1;
            }
            list.push(invite);
            i = i + 1;
        }
        proof {
            assert(list@ =~= self@.invites_with_use(id));
        }
        list
    }

    /// Answers a request at the instant `now`, exactly as the model of the
    /// store does.
    pub fn respond(&mut self, request: Request, now: Timestamp) -> (reply: Reply)
        ensures
            (final(self)@, reply@) == old(self)@.respond(request, now),
    {
        match request {
            Request::EmailExists { email } => Reply::Exists(self.user_by_email(&email).is_some()),
            Request::InsertUser { id, email, password_hash, username } => {
                if self.user_by_email(&email).is_some() || self.user_by_id(id).is_some() {
                    Reply::Conflict
                } else {
                    let user = User {
                        id,
                        email,
                        password_hash,
                        username,
                        avatar_url: None,
                        created_at: now,
                    };
                    self.users.push(copy_user(&user));
                    Reply::User(user)
                }
            },
            Request::FindUserByEmail { email } => Reply::MaybeUser(self.user_by_email(&email)),
            Request::FindUserById { id } => Reply::MaybeUser(self.user_by_id(id)),
            Request::InsertInvite { id, code, server_id, created_by, max_uses, expires_at } => {
                if self.invite_by_code(&code).is_some() || self.invite_by_id(id).is_some() {
                    Reply::Conflict
                } else {
                    let invite = Invite {
                        id,
                        code,
                        server_id,
                        created_by,
                        max_uses,
                        uses: 0,
                        expires_at,
                        revoked: false,
                        created_at: now,
                    };
                    self.invites.push(copy_invite(&invite));
                    Reply::Invite(invite)
                }
            },
            Request::FindInviteByCode { code } => Reply::MaybeInvite(self.invite_by_code(&code)),
            Request::IncrementUse { id } => match self.invite_by_id(id) {
                None => Reply::Unit,
                Some(invite) => {
                    if invite.uses < i32::MAX {
                        self.invites = self.invites_with_use(id);
                        Reply::Unit
                    } else {
                        Reply::Conflict
                    }
                },
            },
            Request::FindMember { server_id, user_id } => Reply::MaybeMember(
                self.member(server_id, user_id),
            ),
            Request::AddMember { server_id, user_id, role } => {
                if self.member(server_id, user_id).is_some() {
                    Reply::Conflict
                } else {
                    self.members.push(ServerMember { server_id, user_id, role });
                    Reply::Unit
                }
            },
            Request::ListMembers { server_id } => Reply::Members(self.members_of(server_id)),
        }
    }
}

} // verus!
