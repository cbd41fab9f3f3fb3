//! The record store as this subsystem sees it: the requests it sends and
//! the replies it takes.

use vstd::prelude::*;
use crate::clock::Timestamp;
use crate::error::StoreFault;
use crate::model::{Invite, MemberRole, ServerMember, User};

verus! {

/// One record operation asked of the store.
#[derive(Clone, Debug, PartialEq, Eq)]
pub enum Request {
    /// Does a user with this email exist?
    EmailExists { email: String },
    /// Insert a user; the store refuses an email or id already present.
    InsertUser { id: u128, email: String, password_hash: String, username: String },
    /// The user with this email, if any.
    FindUserByEmail { email: String },
    /// The user with this id, if any.
    FindUserById { id: u128 },
    /// Insert an invite with no uses; the store refuses a code or id
    /// already present.
    InsertInvite {
        id: u128,
        code: String,
        server_id: u128,
        created_by: u128,
        max_uses: Option<i32>,
        expires_at: Option<Timestamp>,
    },
    /// The invite with this code, if any.
    FindInviteByCode { code: String },
    /// Add one to the use count of the invite with this id, atomically.
    IncrementUse { id: u128 },
    /// The membership of this user in this server, if any.
    FindMember { server_id: u128, user_id: u128 },
    /// Insert a membership; the store refuses a second one for the pair.
    AddMember { server_id: u128, user_id: u128, role: MemberRole },
    /// All memberships of this server.
    ListMembers { server_id: u128 },
}

/// What the store answers.
#[derive(Clone, Debug, PartialEq, Eq)]
pub enum Reply {
    /// Answer to `EmailExists`.
    Exists(bool),
    /// The user that was inserted.
    User(User),
    /// Answer to a user lookup.
    MaybeUser(Option<User>),
    /// The invite that was inserted.
    Invite(Invite),
    /// Answer to an invite lookup.
    MaybeInvite(Option<Invite>),
    /// Answer to a membership lookup.
    MaybeMember(Option<ServerMember>),
    /// Answer to `ListMembers`.
    Members(Vec<ServerMember>),
    /// The write was done and returns nothing.
    Unit,
    /// The write broke a uniqueness constraint and was not done.
    Conflict,
    /// The store failed; the text is its own.
    Failed(String),
}

/// The mathematical content of a [`Reply`]: the same, with a sequence for
/// the member list.
pub enum Answer {
    Exists(bool),
    User(User),
    MaybeUser(Option<User>),
    Invite(Invite),
    MaybeInvite(Option<Invite>),
    MaybeMember(Option<ServerMember>),
    Members(Seq<ServerMember>),
    Unit,
    Conflict,
    Failed(String),
}

impl View for Reply {
    type V = Answer;

    open spec fn view(&self) -> Answer {
        match *self {
            Reply::Exists(b) => Answer::Exists(b),
            Reply::User(u) => Answer::User(u),
            Reply::MaybeUser(u) => Answer::MaybeUser(u),
            Reply::Invite(i) => Answer::Invite(i),
            Reply::MaybeInvite(i) => Answer::MaybeInvite(i),
            Reply::MaybeMember(m) => Answer::MaybeMember(m),
            Reply::Members(v) => Answer::Members(v@),
            Reply::Unit => Answer::Unit,
            Reply::Conflict => Answer::Conflict,
            Reply::Failed(text) => Answer::Failed(text),
        }
    }
}

/// The fault that an answer stands for where the operation in progress has
/// no use for it: the store's own failure, or else an answer out of place.
pub open spec fn fault_of(answer: Answer) -> StoreFault {
    match answer {
        Answer::Failed(text) => StoreFault::Failed(text),
        _ => StoreFault::UnexpectedReply,
    }
}

/// Turns a reply that the operation in progress has no use for into the
/// fault it stands for.
pub fn reply_fault(reply: Reply) -> (fault: StoreFault)
    ensures
        fault == fault_of(reply@),
{
    match reply {
        Reply::Failed(text) => StoreFault::Failed(text),
        _ => StoreFault::UnexpectedReply,
    }
}

} // verus!
