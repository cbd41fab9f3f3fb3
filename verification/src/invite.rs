//! Invites: code generation, creation, lookup and redemption.

use vstd::prelude::*;
use crate::clock::{system_now, Timestamp, NANOS_PER_SEC};
use crate::error::InviteError;
use crate::flow::Step;
use crate::ident::{fresh_id, is_random_uuid};
use crate::model::{CreateInvitePayload, Invite, InviteResponse, MemberRole, ServerMember};
use crate::store::{fault_of, reply_fault, Answer, Reply, Request};
use rand::distributions::Alphanumeric;
use rand::Rng;

verus! {

/// The length of an invite code, in characters.
pub const CODE_LEN: usize = 10;

/// How many codes a new invite looks up in the store before it stops
/// looking and inserts the code drawn last.
pub const MAX_PROBES: u8 = 5;

/// Whether redeeming an invite counts as a use when the user is already a
/// member of the server. With `true` the use count records redemption
/// attempts; with `false` it would record new members only.
pub const COUNT_REPEAT_REDEMPTIONS: bool = true;

/// The alphabet of invite codes: the ASCII letters and digits.
pub open spec fn is_code_char(c: char) -> bool {
    ||| 'a' as u32 <= c as u32 <= 'z' as u32
    ||| 'A' as u32 <= c as u32 <= 'Z' as u32
    ||| '0' as u32 <= c as u32 <= '9' as u32
}

/// `code` has `len` characters, all from the alphabet.
pub open spec fn is_code(code: Seq<char>, len: nat) -> bool {
    &&& code.len() == len
    &&& forall|i: int| 0 <= i < code.len() ==> is_code_char(#[trigger] code[i])
}

/// Appends a character to a string.
pub assume_specification[ String::push ](text: &mut String, c: char)
    ensures
        final(text)@ == old(text)@.push(c),
;

/// Draws one character from `rand`'s `Alphanumeric` distribution with the
/// thread's generator.
///
/// Trusted: the distribution yields ASCII letters and digits only. Which
/// one comes is random, so nothing else is claimed.
#[verifier::external_body]
fn draw_code_char() -> (c: char)
    ensures
        is_code_char(c),
{
    char::from(rand::thread_rng().sample(Alphanumeric))
}

/// Draws a random code of `len` characters from the alphabet.
pub fn gen_code(len: usize) -> (code: String)
    ensures
        is_code(code@, len as nat),
{
    let mut code = String::new();
    let mut drawn: usize = 0;
    while drawn < len
        invariant
            drawn <= len,
            is_code(code@, drawn as nat),
        decreases len - drawn,
    {
        let c = draw_code_char();
        code.push(c);
        drawn = drawn + 1;
    }
    code
}

/// A new invite in the making.
#[derive(Debug)]
pub struct InviteDraft {
    pub id: u128,
    pub server_id: u128,
    pub created_by: u128,
    pub max_uses: Option<i32>,
    pub expires_at: Option<Timestamp>,
    /// The code drawn last.
    pub code: String,
    /// How many codes have been looked up in the store so far.
    pub probes: u8,
}

/// Where the creation of an invite stands while it waits for the store.
#[derive(Debug)]
pub enum CreateInviteState {
    /// Asked whether the draft's code is taken.
    Probing(InviteDraft),
    /// Asked to insert the draft.
    Inserting(InviteDraft),
}

/// The step of an invite's creation.
pub type CreateInviteStep = Step<CreateInviteState, InviteResponse, InviteError>;

impl InviteDraft {
    /// The draft with another code.
    pub open spec fn with_code(self, code: String) -> InviteDraft {
        InviteDraft { code, ..self }
    }

    /// The draft with one more lookup on its count.
    pub open spec fn probed(self) -> InviteDraft {
        InviteDraft { probes: (self.probes + 1) as u8, ..self }
    }

    /// The request that looks the draft's code up.
    pub open spec fn probe(self) -> Request {
        Request::FindInviteByCode { code: self.code }
    }

    /// The request that inserts the draft.
    pub open spec fn insertion(self) -> Request {
        Request::InsertInvite {
            id: self.id,
            code: self.code,
            server_id: self.server_id,
            created_by: self.created_by,
            max_uses: self.max_uses,
            expires_at: self.expires_at,
        }
    }

    /// Asks the store whether the draft's code is taken, counting the lookup.
    fn ask_probe(self) -> (step: CreateInviteStep)
        requires
            self.probes < MAX_PROBES,
        ensures
            step == (CreateInviteStep::Ask(
                CreateInviteState::Probing(self.probed()),
                self.probe(),
            )),
    {
        let code = self.code.clone();
        let draft = InviteDraft { probes: self.probes + 1, ..self };
        Step::Ask(CreateInviteState::Probing(draft), Request::FindInviteByCode { code })
    }

    /// Asks the store to insert the draft.
    fn ask_insert(self) -> (step: CreateInviteStep)
        ensures
            step == (CreateInviteStep::Ask(CreateInviteState::Inserting(self), self.insertion())),
    {
        let request = Request::InsertInvite {
            id: self.id,
            code: self.code.clone(),
            server_id: self.server_id,
            created_by: self.created_by,
            max_uses: self.max_uses,
            expires_at: self.expires_at,
        };
        Step::Ask(CreateInviteState::Inserting(self), request)
    }
}

/// The first step of an invite's creation, given the id and the first code
/// drawn: look the code up. The new invite will have no uses.
pub open spec fn create_invite_first(
    server_id: u128,
    creator_id: u128,
    payload: CreateInvitePayload,
    id: u128,
    code: String,
) -> CreateInviteStep {
    let draft = InviteDraft {
        id,
        server_id,
        created_by: creator_id,
        max_uses: payload.max_uses,
        expires_at: payload.expires_at,
        code,
        probes: 0,
    };
    Step::Ask(CreateInviteState::Probing(draft.probed()), draft.probe())
}

/// The store's answer says that the code in hand is taken: a lookup found
/// an invite with it, or the insert broke the uniqueness of codes.
pub open spec fn code_taken(state: CreateInviteState, answer: Answer) -> bool {
    match (state, answer) {
        (CreateInviteState::Probing(_), Answer::MaybeInvite(Some(_))) => true,
        (CreateInviteState::Inserting(_), Answer::Conflict) => true,
        _ => false,
    }
}

/// One step of an invite's creation. `fresh` is a newly drawn code; it is
/// used only where the code in hand is taken.
///
/// - While probing: a free code is inserted. A taken code is replaced by
///   `fresh`, which is looked up in turn unless `MAX_PROBES` codes have
///   been looked up already; then `fresh` is inserted unseen.
/// - While inserting: the stored invite ends the creation with its outward
///   form. A conflict is never reported: the insert is tried again with
///   `fresh`.
/// - Any other answer is a fault of the store.
pub open spec fn create_invite_step(
    state: CreateInviteState,
    answer: Answer,
    fresh: String,
) -> CreateInviteStep {
    match state {
        CreateInviteState::Probing(draft) => match answer {
            Answer::MaybeInvite(None) => Step::Ask(
                CreateInviteState::Inserting(draft),
                draft.insertion(),
            ),
            Answer::MaybeInvite(Some(_)) => {
                let next = draft.with_code(fresh);
                if draft.probes < MAX_PROBES {
                    Step::Ask(CreateInviteState::Probing(next.probed()), next.probe())
                } else {
                    Step::Ask(CreateInviteState::Inserting(next), next.insertion())
                }
            },
            other => Step::Done(Err(InviteError::Database(fault_of(other)))),
        },
        CreateInviteState::Inserting(draft) => match answer {
            Answer::Invite(invite) => Step::Done(Ok(invite.outward())),
            Answer::Conflict => {
                let next = draft.with_code(fresh);
                Step::Ask(CreateInviteState::Inserting(next), next.insertion())
            },
            other => Step::Done(Err(InviteError::Database(fault_of(other)))),
        },
    }
}

/// Starts the creation of an invite with a given id and first code.
pub fn create_invite_with(
    server_id: u128,
    creator_id: u128,
    payload: CreateInvitePayload,
    id: u128,
    code: String,
) -> (step: CreateInviteStep)
    ensures
        step == create_invite_first(server_id, creator_id, payload, id, code),
{
    let draft = InviteDraft {
        id,
        server_id,
        created_by: creator_id,
        max_uses: payload.max_uses,
        expires_at: payload.expires_at,
        code,
        probes: 0,
    };
    draft.ask_probe()
}

/// Starts the creation of an invite for a server: draws an id and a code
/// of `CODE_LEN` characters and looks the code up.
pub fn create_invite(server_id: u128, creator_id: u128, payload: CreateInvitePayload) -> (step:
    CreateInviteStep)
    ensures
        exists|id: u128, code: String|
            is_random_uuid(id) && is_code(code@, CODE_LEN as nat) && step
                == #[trigger] create_invite_first(server_id, creator_id, payload, id, code),
{
    let id = fresh_id();
    let code = gen_code(CODE_LEN);
    create_invite_with(server_id, creator_id, payload, id, code)
}

/// Decides whether the store's reply says that the code in hand is taken.
pub fn is_code_taken(state: &CreateInviteState, reply: &Reply) -> (taken: bool)
    ensures
        taken == code_taken(*state, reply@),
{
    match (state, reply) {
        (CreateInviteState::Probing(_), Reply::MaybeInvite(Some(_))) => true,
        (CreateInviteState::Inserting(_), Reply::Conflict) => true,
        _ => false,
    }
}

/// Continues the creation of an invite with the store's reply and a newly
/// drawn code.
pub fn create_invite_next(state: CreateInviteState, reply: Reply, fresh: String) -> (step:
    CreateInviteStep)
    ensures
        step == create_invite_step(state, reply@, fresh),
{
    match state {
        CreateInviteState::Probing(draft) => match reply {
            Reply::MaybeInvite(None) => draft.ask_insert(),
            Reply::MaybeInvite(Some(_)) => {
                let probes = draft.probes;
                let next = InviteDraft { code: fresh, ..draft };
                if probes < MAX_PROBES {
                    next.ask_probe()
                } else {
                    next.ask_insert()
                }
            },
            other => Step::Done(Err(InviteError::Database(reply_fault(other)))),
        },
        CreateInviteState::Inserting(draft) => match reply {
            Reply::Invite(invite) => Step::Done(Ok(InviteResponse::from(invite))),
            Reply::Conflict => {
                let next = InviteDraft { code: fresh, ..draft };
                next.ask_insert()
            },
            other => Step::Done(Err(InviteError::Database(reply_fault(other)))),
        },
    }
}

/// Resumes the creation of an invite with the store's reply. Draws a new
/// code where the reply says that the code in hand is taken.
///
/// The result is [`create_invite_step`] of the state, the reply and some
/// text, which is a code of `CODE_LEN` characters wherever it is used.
pub fn create_invite_resume(state: CreateInviteState, reply: Reply) -> (step: CreateInviteStep)
    ensures
        exists|fresh: String|
            (code_taken(state, reply@) ==> is_code(fresh@, CODE_LEN as nat)) && step
                == #[trigger] create_invite_step(state, reply@, fresh),
{
    let fresh = if is_code_taken(&state, &reply) {
        gen_code(CODE_LEN)
    } else {
        String::new()
    };
    create_invite_next(state, reply, fresh)
}

/// Where an invite lookup stands while it waits for the store.
#[derive(Clone, Copy, Debug, PartialEq, Eq, Structural)]
pub enum InviteLookupState {
    /// Asked for the invite with the code.
    Finding,
}

/// The step of an invite lookup.
pub type InviteLookupStep = Step<InviteLookupState, InviteResponse, InviteError>;

/// The one step of an invite lookup: the invite's outward form if there is
/// one, whatever its state of validity; `InviteNotFound` if there is none;
/// a fault of the store otherwise.
pub open spec fn invite_lookup_step(answer: Answer) -> InviteLookupStep {
    match answer {
        Answer::MaybeInvite(Some(invite)) => Step::Done(Ok(invite.outward())),
        Answer::MaybeInvite(None) => Step::Done(Err(InviteError::InviteNotFound)),
        other => Step::Done(Err(InviteError::Database(fault_of(other)))),
    }
}

/// The first step of an invite lookup: ask for the invite with the code.
pub open spec fn invite_lookup_first(code: String) -> InviteLookupStep {
    Step::Ask(InviteLookupState::Finding, Request::FindInviteByCode { code })
}

/// Starts a lookup of the invite with `code`. Nothing is written.
pub fn get_invite_by_code(code: &str) -> (step: InviteLookupStep)
    ensures
        exists|asked: String|
            asked@ == code@ && step == #[trigger] invite_lookup_first(asked),
{
    let asked = code.to_owned();
    let ghost first = invite_lookup_first(asked);
    Step::Ask(InviteLookupState::Finding, Request::FindInviteByCode { code: asked })
}

/// Resumes an invite lookup with the store's reply.
pub fn get_invite_by_code_resume(state: InviteLookupState, reply: Reply) -> (step: InviteLookupStep)
    ensures
        step == invite_lookup_step(reply@),
{
    match reply {
        Reply::MaybeInvite(Some(invite)) => Step::Done(Ok(InviteResponse::from(invite))),
        Reply::MaybeInvite(None) => Step::Done(Err(InviteError::InviteNotFound)),
        other => Step::Done(Err(InviteError::Database(reply_fault(other)))),
    }
}

impl Invite {
    /// The invite can be redeemed at the instant `now`: it is not revoked,
    /// its expiry, if it has one, is not in the past, and its uses, if they
    /// are limited, have not reached the limit.
    pub open spec fn usable_at(self, now: Timestamp) -> bool {
        &&& !self.revoked
        &&& (self.expires_at matches Some(end) ==> !end.is_before(now))
        &&& (self.max_uses matches Some(limit) ==> self.uses < limit)
    }

    /// Decides whether the invite can be redeemed at the instant `now`.
    pub fn is_usable(&self, now: &Timestamp) -> (usable: bool)
        ensures
            usable == self.usable_at(*now),
    {
        let live = match &self.expires_at {
            Some(end) => !end.before(now),
            None => true,
        };
        let open = match self.max_uses {
            Some(limit) => self.uses < limit,
            None => true,
        };
        !self.revoked && live && open
    }
}

/// Where the redemption of an invite stands while it waits for the store.
#[derive(Clone, Copy, Debug, PartialEq, Eq, Structural)]
pub enum AcceptState {
    /// Asked for the invite with the code.
    Finding { user_id: u128 },
    /// Asked whether the user is a member of the invite's server.
    Checking { user_id: u128, server_id: u128, invite_id: u128 },
    /// Asked to insert the membership.
    Adding { server_id: u128, invite_id: u128 },
    /// Asked to count the use.
    Counting { server_id: u128 },
    /// Asked for the server's members.
    Listing,
}

/// The step of an invite's redemption.
pub type AcceptStep = Step<AcceptState, Vec<ServerMember>, InviteError>;

/// The mathematical content of an [`AcceptStep`]: the same, with a
/// sequence for the member list.
pub type AcceptStepView = Step<AcceptState, Seq<ServerMember>, InviteError>;

/// The view of an [`AcceptStep`].
pub open spec fn accept_view(step: AcceptStep) -> AcceptStepView {
    match step {
        Step::Ask(state, request) => Step::Ask(state, request),
        Step::Done(Ok(members)) => Step::Done(Ok(members@)),
        Step::Done(Err(e)) => Step::Done(Err(e)),
    }
}

/// What a redemption does once the user's membership is in place: it
/// counts the use and then lists the members, or, where uses are not to be
/// counted, lists the members at once.
pub open spec fn after_membership(server_id: u128, invite_id: u128, count: bool) -> AcceptStepView {
    if count {
        Step::Ask(AcceptState::Counting { server_id }, Request::IncrementUse { id: invite_id })
    } else {
        Step::Ask(AcceptState::Listing, Request::ListMembers { server_id })
    }
}

/// One step of an invite's redemption at the instant `now`.
///
/// - While finding: no invite ends it with `InviteNotFound`; an invite
///   that is not usable at `now` ends it with `InviteInvalid`, before
///   anything is written; a usable one leads to the membership check.
/// - While checking: a user who is no member yet is inserted as a member
///   with the role `Member`; for one who is, the use is counted if
///   `COUNT_REPEAT_REDEMPTIONS` says so.
/// - While adding: the use is counted; a conflict means that the user
///   became a member in the meantime and is treated as a repeat.
/// - While counting: the members are listed.
/// - While listing: the list ends the redemption.
/// - Any other answer is a fault of the store.
pub open spec fn accept_step(state: AcceptState, answer: Answer, now: Timestamp) -> AcceptStepView {
    match state {
        AcceptState::Finding { user_id } => match answer {
            Answer::MaybeInvite(None) => Step::Done(Err(InviteError::InviteNotFound)),
            Answer::MaybeInvite(Some(invite)) => if invite.usable_at(now) {
                Step::Ask(
                    AcceptState::Checking {
                        user_id,
                        server_id: invite.server_id,
                        invite_id: invite.id,
                    },
                    Request::FindMember { server_id: invite.server_id, user_id },
                )
            } else {
                Step::Done(Err(InviteError::InviteInvalid))
            },
            other => Step::Done(Err(InviteError::Database(fault_of(other)))),
        },
        AcceptState::Checking { user_id, server_id, invite_id } => match answer {
            Answer::MaybeMember(None) => Step::Ask(
                AcceptState::Adding { server_id, invite_id },
                Request::AddMember { server_id, user_id, role: MemberRole::Member },
            ),
            Answer::MaybeMember(Some(_)) => after_membership(
                server_id,
                invite_id,
                COUNT_REPEAT_REDEMPTIONS,
            ),
            other => Step::Done(Err(InviteError::Database(fault_of(other)))),
        },
        AcceptState::Adding { server_id, invite_id } => match answer {
            Answer::Unit => after_membership(server_id, invite_id, true),
            Answer::Conflict => after_membership(server_id, invite_id, COUNT_REPEAT_REDEMPTIONS),
            other => Step::Done(Err(InviteError::Database(fault_of(other)))),
        },
        AcceptState::Counting { server_id } => match answer {
            Answer::Unit => Step::Ask(AcceptState::Listing, Request::ListMembers { server_id }),
            other => Step::Done(Err(InviteError::Database(fault_of(other)))),
        },
        AcceptState::Listing => match answer {
            Answer::Members(members) => Step::Done(Ok(members)),
            other => Step::Done(Err(InviteError::Database(fault_of(other)))),
        },
    }
}

/// Continues a redemption once the user's membership is in place.
fn proceed_after_membership(server_id: u128, invite_id: u128, count: bool) -> (step: AcceptStep)
    ensures
        accept_view(step) == after_membership(server_id, invite_id, count),
{
    if count {
        Step::Ask(AcceptState::Counting { server_id }, Request::IncrementUse { id: invite_id })
    } else {
        Step::Ask(AcceptState::Listing, Request::ListMembers { server_id })
    }
}

/// The first step of a redemption: ask for the invite with the code.
pub open spec fn accept_first(user_id: u128, code: String) -> AcceptStepView {
    Step::Ask(AcceptState::Finding { user_id }, Request::FindInviteByCode { code })
}

/// Starts the redemption of the invite with `code` by a user: asks the
/// store for the invite.
pub fn accept_invite(user_id: u128, code: &str) -> (step: AcceptStep)
    ensures
        exists|asked: String|
            asked@ == code@ && accept_view(step) == #[trigger] accept_first(user_id, asked),
{
    let asked = code.to_owned();
    let ghost first = accept_first(user_id, asked);
    Step::Ask(AcceptState::Finding { user_id }, Request::FindInviteByCode { code: asked })
}

/// Continues a redemption with the store's reply, at the instant `now`.
pub fn accept_invite_at(state: AcceptState, reply: Reply, now: Timestamp) -> (step: AcceptStep)
    ensures
        accept_view(step) == accept_step(state, reply@, now),
{
    match state {
        AcceptState::Finding { user_id } => match reply {
            Reply::MaybeInvite(None) => Step::Done(Err(InviteError::InviteNotFound)),
            Reply::MaybeInvite(Some(invite)) => {
                if invite.is_usable(&now) {
                    Step::Ask(
                        AcceptState::Checking {
                            user_id,
                            server_id: invite.server_id,
                            invite_id: invite.id,
                        },
                        Request::FindMember { server_id: invite.server_id, user_id },
                    )
                } else {
                    Step::Done(Err(InviteError::InviteInvalid))
                }
            },
            other => Step::Done(Err(InviteError::Database(reply_fault(other)))),
        },
        AcceptState::Checking { user_id, server_id, invite_id } => match reply {
            Reply::MaybeMember(None) => Step::Ask(
                AcceptState::Adding { server_id, invite_id },
                Request::AddMember { server_id, user_id, role: MemberRole::Member },
            ),
            Reply::MaybeMember(Some(_)) => proceed_after_membership(
                server_id,
                invite_id,
                COUNT_REPEAT_REDEMPTIONS,
            ),
            other => Step::Done(Err(InviteError::Database(reply_fault(other)))),
        },
        AcceptState::Adding { server_id, invite_id } => match reply {
            Reply::Unit => proceed_after_membership(server_id, invite_id, true),
            Reply::Conflict => proceed_after_membership(
                server_id,
                invite_id,
                COUNT_REPEAT_REDEMPTIONS,
            ),
            other => Step::Done(Err(InviteError::Database(reply_fault(other)))),
        },
        AcceptState::Counting { server_id } => match reply {
            Reply::Unit => Step::Ask(AcceptState::Listing, Request::ListMembers { server_id }),
            other => Step::Done(Err(InviteError::Database(reply_fault(other)))),
        },
        AcceptState::Listing => match reply {
            Reply::Members(members) => Step::Done(Ok(members)),
            other => Step::Done(Err(InviteError::Database(reply_fault(other)))),
        },
    }
}

/// Resumes a redemption with the store's reply. Reads the clock when the
/// invite has just been found, to judge whether it is usable.
///
/// The result is [`accept_step`] of the state and the reply at some
/// instant at or after the epoch.
pub fn accept_invite_resume(state: AcceptState, reply: Reply) -> (step: AcceptStep)
    ensures
        exists|now: Timestamp|
            now.secs >= 0 && now.nanos < NANOS_PER_SEC && accept_view(step)
                == #[trigger] accept_step(state, reply@, now),
{
    let now = match state {
        AcceptState::Finding { .. } => system_now(),
        _ => Timestamp { secs: 0, nanos: 0 },
    };
    accept_invite_at(state, reply, now)
}

} // verus!
