//! One client's session: its account, where it is headed, and how it answers
//! each request frame. Whatever needs the disk or JSON comes back to the
//! caller as part of the step: the account to save, the Steam profile to
//! load, and the JSON body the reply carries.
use vstd::prelude::*;
use crate::protocol::bap_frame::BapFrame;
use crate::protocol::envelope::{envelope_bytes, ServiceResponseEnvelope, ServiceStatusCode};
use crate::protocol::opcode::Opcode;
use crate::server::client_registry::ClientRegistry;
use crate::server::udp_bindings::PeerAddr;
use crate::state::account::AccountState;
use crate::state::activity_director::DestinationManifest;
use crate::state::profile_store::{is_new_profile, membership_hash, steam_display_name, ProfileStore};

verus! {

/// The destination a new session starts at: Titan.
pub const DEFAULT_DESTINATION_HASH: u32 = 373711905;

/// What a Signon request may carry.
pub struct SignonPayload {
    pub steam_id: Option<u64>,
    pub display_name: Option<String>,
}

/// What an activity request may carry.
pub struct ActivityPayload {
    pub activity_hash: Option<u32>,
    pub destination_hash: Option<u32>,
}

/// What a BindUdp request may carry.
pub struct BindPayload {
    pub udp_port: Option<u16>,
}

/// A request payload as parsed from its JSON, when it parsed.
pub enum RequestPayload {
    Nothing,
    Signon(SignonPayload),
    Activity(ActivityPayload),
    BindUdp(BindPayload),
}

/// Which payload a request of some opcode is read as.
#[derive(Debug, Clone, Copy, PartialEq, Eq, Structural)]
pub enum PayloadKind {
    Nothing,
    Signon,
    Activity,
    BindUdp,
}

pub open spec fn payload_kind_of(op: Opcode) -> PayloadKind {
    match op {
        Opcode::Signon | Opcode::SignonExtended => PayloadKind::Signon,
        Opcode::BindUdp => PayloadKind::BindUdp,
        Opcode::ActivityJoin | Opcode::ActivityLeave | Opcode::FireteamBroadcast => PayloadKind::Activity,
        _ => PayloadKind::Nothing,
    }
}

/// The body of an envelope reply: bytes, or something to be written as JSON.
pub enum ReplyBody {
    Bytes(Vec<u8>),
    /// The session's account.
    AccountJson,
    /// The session account's characters.
    CharactersJson,
    /// A destination; nothing when there is none.
    DestinationJson(Option<DestinationManifest>),
    /// `{"activity_hash":..,"destination_hash":..,"membership_id":..}`.
    JoinJson { activity_hash: u32, destination_hash: u32, membership_id: u64 },
    /// `{"udp_source":"<address>"}`.
    UdpSourceJson(PeerAddr),
}

/// An envelope reply before its body is written.
pub struct EnvelopeReply {
    pub opcode: Opcode,
    pub transaction_id: u32,
    pub status: ServiceStatusCode,
    pub version: u32,
    pub body: ReplyBody,
}

pub enum SessionReply {
    /// A frame to send as it is.
    Frame(BapFrame),
    /// An envelope to wrap in a frame once its body is written.
    Envelope(EnvelopeReply),
}

/// The outcome of one request.
pub struct SessionStep {
    pub reply: SessionReply,
    /// The account is to be saved.
    pub save_account: bool,
    /// The account is to be replaced by the Steam profile of this Steam id.
    pub refresh_from_steam: Option<u64>,
}

/// `step` answers `request` with an envelope of `status` and `version`
/// whose body satisfies `body_ok`, and asks for nothing else but `save`.
pub open spec fn envelope_step(
    step: SessionStep,
    request: BapFrame,
    status: ServiceStatusCode,
    version: u32,
    save: bool,
) -> bool {
    &&& step.reply matches SessionReply::Envelope(e)
    &&& e.opcode == request.opcode
    &&& e.transaction_id == request.transaction_id
    &&& e.status == status
    &&& e.version == version
    &&& step.save_account == save
    &&& step.refresh_from_steam is None
}

/// The envelope body of `step`, when it is an envelope.
pub open spec fn step_body(step: SessionStep) -> Option<ReplyBody> {
    match step.reply {
        SessionReply::Envelope(e) => Some(e.body),
        SessionReply::Frame(_) => None,
    }
}

/// An envelope with status Success, version 1 and an empty body.
pub open spec fn success_empty_step(step: SessionStep, request: BapFrame, save: bool) -> bool {
    &&& envelope_step(step, request, ServiceStatusCode::Success, 1, save)
    &&& step_body(step) matches Some(ReplyBody::Bytes(b)) && b@.len() == 0
}

pub struct SessionHandler {
    pub account: AccountState,
    pub store: ProfileStore,
    pub active_destination_hash: u32,
    pub steam_id: Option<u64>,
    pub ephemeral: bool,
    pub peer_addr: PeerAddr,
    /// The membership id the session registered its client under.
    pub registry_handle: u64,
}

/// Everything but the account is as before.
pub open spec fn same_but_account(a: SessionHandler, b: SessionHandler) -> bool {
    &&& a.store == b.store
    &&& a.active_destination_hash == b.active_destination_hash
    &&& a.steam_id == b.steam_id
    &&& a.ephemeral == b.ephemeral
    &&& a.peer_addr == b.peer_addr
    &&& a.registry_handle == b.registry_handle
}

/// The activity a request names, else the session's destination.
pub open spec fn chosen_activity(p: Option<ActivityPayload>, active: u32) -> u32 {
    match p {
        Some(q) => match q.activity_hash {
            Some(h) => h,
            None => active,
        },
        None => active,
    }
}

/// The destination a request names, else the session's destination.
pub open spec fn chosen_destination(p: Option<ActivityPayload>, active: u32) -> u32 {
    match p {
        Some(q) => match q.destination_hash {
            Some(h) => h,
            None => active,
        },
        None => active,
    }
}

pub(crate) fn activity_or(p: &Option<ActivityPayload>, active: u32) -> (r: (u32, u32))
    ensures
        r.0 == chosen_activity(*p, active),
        r.1 == chosen_destination(*p, active),
{
    match p {
        Some(q) => (
            match q.activity_hash {
                Some(h) => h,
                None => active,
            },
            match q.destination_hash {
                Some(h) => h,
                None => active,
            },
        ),
        None => (active, active),
    }
}

/// An envelope step without a request for the disk.
pub(crate) fn envelope(request: &BapFrame, status: ServiceStatusCode, version: u32, body: ReplyBody, save: bool) -> (s:
    SessionStep)
    ensures
        envelope_step(s, *request, status, version, save),
        step_body(s) == Some(body),
{
    SessionStep {
        reply: SessionReply::Envelope(
            EnvelopeReply { opcode: request.opcode, transaction_id: request.transaction_id, status, version, body },
        ),
        save_account: save,
        refresh_from_steam: None,
    }
}

/// Success, version 1, an empty body.
pub fn success_empty(request: &BapFrame, save: bool) -> (s: SessionStep)
    ensures
        success_empty_step(s, *request, save),
{
    envelope(request, ServiceStatusCode::Success, 1, ReplyBody::Bytes(Vec::new()), save)
}

/// The frame that carries an envelope reply whose body is `body`.
pub fn envelope_frame(e: EnvelopeReply, body: Vec<u8>) -> (f: BapFrame)
    ensures
        f.transaction_id == e.transaction_id,
        f.opcode == e.opcode,
        f.payload@ == envelope_bytes(e.opcode, e.transaction_id, e.status, e.version, body@),
{
    let env = ServiceResponseEnvelope::new(e.opcode, e.transaction_id, e.status, e.version, body);
    let payload = match env.encode() {
        Ok(p) => p,
        Err(_) => Vec::new(),
    };
    BapFrame::new(e.transaction_id, e.opcode, payload)
}

/// Which payload a request of `opcode` is read as.
pub fn payload_kind(opcode: Opcode) -> (k: PayloadKind)
    ensures
        k == payload_kind_of(opcode),
{
    match opcode {
        Opcode::Signon | Opcode::SignonExtended => PayloadKind::Signon,
        Opcode::BindUdp => PayloadKind::BindUdp,
        Opcode::ActivityJoin | Opcode::ActivityLeave | Opcode::FireteamBroadcast => PayloadKind::Activity,
        _ => PayloadKind::Nothing,
    }
}

impl SessionHandler {
    /// A session for `account`, at the default destination, anonymous, with
    /// its client registered under `membership_id` from `peer_addr`.
    pub fn new(
        membership_id: u64,
        display_name: &str,
        peer_addr: PeerAddr,
        registry: &mut ClientRegistry,
        account: AccountState,
        store: ProfileStore,
    ) -> (s: Self)
        requires
            old(registry).wf(),
        ensures
            final(registry).wf(),
            final(registry).clients().contains_key(membership_id),
            final(registry).udp_owner(peer_addr) == Some(membership_id),
            final(registry).clients()[membership_id].display_name@ == display_name@,
            s.account == account,
            s.store == store,
            s.active_destination_hash == DEFAULT_DESTINATION_HASH,
            s.steam_id is None,
            s.ephemeral,
            s.peer_addr == peer_addr,
            s.registry_handle == membership_id,
    {
        let _ = registry.register(membership_id, display_name, peer_addr);
        SessionHandler {
            account,
            store,
            active_destination_hash: DEFAULT_DESTINATION_HASH,
            steam_id: None,
            ephemeral: true,
            peer_addr,
            registry_handle: membership_id,
        }
    }

    /// Replaces the account by the Steam profile when the session has a Steam
    /// id: `stored` is the profile kept under that id's membership id, if any.
    /// Returns whether a new profile was made, which is then to be saved.
    pub fn refresh_account_from_steam(&mut self, stored: Option<AccountState>) -> (created: bool)
        ensures
            same_but_account(*final(self), *old(self)),
            match old(self).steam_id {
                None => final(self).account == old(self).account && !created,
                Some(steam) => match stored {
                    Some(s) => final(self).account == s && !created,
                    None => is_new_profile(final(self).account, membership_hash(steam), steam_display_name(steam))
                        && created,
                },
            },
    {
        match self.steam_id {
            Some(steam) => {
                let created = stored.is_none();
                self.account = ProfileStore::load_or_create_account_by_steam(steam, stored);
                created
            },
            None => false,
        }
    }
}

} // verus!
