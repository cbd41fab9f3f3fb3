//! The records of the subsystem and their outward-facing forms.

use vstd::prelude::*;
use crate::clock::Timestamp;

verus! {

/// A stored user. `password_hash` is opaque and never leaves the service.
#[derive(Clone, Debug, PartialEq, Eq)]
pub struct User {
    pub id: u128,
    pub email: String,
    pub password_hash: String,
    pub username: String,
    pub avatar_url: Option<String>,
    pub created_at: Timestamp,
}

/// What a client sends to sign up.
#[derive(Clone, Debug, PartialEq, Eq)]
pub struct SignupPayload {
    pub username: String,
    pub email: String,
    pub password: String,
}

/// What a client sends to log in.
#[derive(Clone, Debug, PartialEq, Eq)]
pub struct LoginPayload {
    pub email: String,
    pub password: String,
}

/// A user as shown to clients: every field of [`User`] but the password hash.
#[derive(Clone, Debug, PartialEq, Eq)]
pub struct UserResponse {
    pub id: u128,
    pub email: String,
    pub username: String,
    pub avatar_url: Option<String>,
    pub created_at: Timestamp,
}

/// The result of a successful signup or login.
#[derive(Clone, Debug, PartialEq, Eq)]
pub struct AuthResponse {
    pub user: UserResponse,
    pub token: String,
}

/// The claims carried by a session token. Times are whole seconds since the
/// Unix epoch.
#[derive(Clone, Debug, PartialEq, Eq)]
pub struct Claims {
    pub sub: u128,
    pub email: String,
    pub exp: u64,
    pub iat: u64,
}

/// A stored invite.
#[derive(Clone, Debug, PartialEq, Eq)]
pub struct Invite {
    pub id: u128,
    pub code: String,
    pub server_id: u128,
    pub created_by: u128,
    pub max_uses: Option<i32>,
    pub uses: i32,
    pub expires_at: Option<Timestamp>,
    pub revoked: bool,
    pub created_at: Timestamp,
}

/// The limits a creator may put on a new invite.
#[derive(Clone, Copy, Debug, PartialEq, Eq)]
pub struct CreateInvitePayload {
    pub max_uses: Option<i32>,
    pub expires_at: Option<Timestamp>,
}

/// An invite as shown to clients.
#[derive(Clone, Debug, PartialEq, Eq)]
pub struct InviteResponse {
    pub code: String,
    pub server_id: u128,
    pub max_uses: Option<i32>,
    pub uses: i32,
    pub expires_at: Option<Timestamp>,
    pub created_at: Timestamp,
}

/// The role a member holds in a server.
#[derive(Clone, Copy, Debug, PartialEq, Eq, Structural)]
pub enum MemberRole {
    Owner,
    Member,
}

/// One membership: `user_id` belongs to `server_id` with `role`.
#[derive(Clone, Copy, Debug, PartialEq, Eq, Structural)]
pub struct ServerMember {
    pub server_id: u128,
    pub user_id: u128,
    pub role: MemberRole,
}

impl User {
    /// The outward form of a user: the same fields without the password hash.
    pub open spec fn outward(self) -> UserResponse {
        UserResponse {
            id: self.id,
            email: self.email,
            username: self.username,
            avatar_url: self.avatar_url,
            created_at: self.created_at,
        }
    }
}

impl Invite {
    /// The outward form of an invite.
    pub open spec fn outward(self) -> InviteResponse {
        InviteResponse {
            code: self.code,
            server_id: self.server_id,
            max_uses: self.max_uses,
            uses: self.uses,
            expires_at: self.expires_at,
            created_at: self.created_at,
        }
    }
}

impl From<User> for UserResponse {
    fn from(user: User) -> (r: UserResponse)
    {
        UserResponse {
            id: user.id,
            email: user.email,
            username: user.username,
            avatar_url: user.avatar_url,
            created_at: user.created_at,
        }
    }
}

impl vstd::std_specs::convert::FromSpecImpl<User> for UserResponse {
    open spec fn obeys_from_spec() -> bool {
        true
    }

    open spec fn from_spec(user: User) -> UserResponse {
        user.outward()
    }
}

impl From<Invite> for InviteResponse {
    fn from(invite: Invite) -> (r: InviteResponse)
    {
        InviteResponse {
            code: invite.code,
            server_id: invite.server_id,
            max_uses: invite.max_uses,
            uses: invite.uses,
            expires_at: invite.expires_at,
            created_at: invite.created_at,
        }
    }
}

impl vstd::std_specs::convert::FromSpecImpl<Invite> for InviteResponse {
    open spec fn obeys_from_spec() -> bool {
        true
    }

    open spec fn from_spec(invite: Invite) -> InviteResponse {
        invite.outward()
    }
}

} // verus!
