//! The answer to each kind of request frame.
use vstd::prelude::*;
use crate::protocol::bap_frame::BapFrame;
use crate::protocol::envelope::ServiceStatusCode;
use crate::protocol::opcode::Opcode;
use crate::server::client_registry::ClientRegistry;
use crate::server::fireteam::{broadcast_count, queued_more, Fireteam};
use crate::server::session_handler::{
    activity_or, chosen_activity, chosen_destination, envelope, envelope_step, step_body,
    success_empty, success_empty_step, ActivityPayload, BindPayload, ReplyBody, RequestPayload, SessionHandler,
    SessionReply, SessionStep, SignonPayload,
};
use crate::server::udp_bindings::PeerAddr;
use crate::state::account::recalculated_light;
use crate::state::activity::{joined, left};
use crate::state::activity_director::{destination_index, destination_table, ActivityDirector};

verus! {

/// The four bytes every Signon answer carries.
pub open spec fn signon_ack() -> Seq<u8> {
    seq![0u8, 1u8, 2u8, 3u8]
}

/// The payload of a QueueZ answer: an immediate admission token.
pub open spec fn queuez_token() -> Seq<u8> {
    seq![0x08u8, 0x01u8, 0x10u8, 0x00u8]
}

/// What a Signon does: with a Steam id in a non-empty payload, the session
/// takes it (and the display name, when one is given), stops being anonymous
/// and asks for the Steam profile; otherwise nothing changes. The answer is
/// a success envelope carrying `signon_ack`.
pub open spec fn signon_effect(
    old: SessionHandler,
    new: SessionHandler,
    request: BapFrame,
    parsed: Option<SignonPayload>,
    step: SessionStep,
) -> bool {
    let p = if request.payload@.len() == 0 { None } else { parsed };
    &&& step.reply matches SessionReply::Envelope(e)
    &&& e.opcode == request.opcode
    &&& e.transaction_id == request.transaction_id
    &&& e.status == ServiceStatusCode::Success
    &&& e.version == 1
    &&& step_body(step) matches Some(ReplyBody::Bytes(b)) && b@ == signon_ack()
    &&& !step.save_account
    &&& new.store == old.store
    &&& new.active_destination_hash == old.active_destination_hash
    &&& new.peer_addr == old.peer_addr
    &&& new.registry_handle == old.registry_handle
    &&& new.account.membership_id == old.account.membership_id
    &&& new.account.characters == old.account.characters
    &&& match p {
        Some(q) => match q.steam_id {
            Some(steam) => {
                &&& new.steam_id == Some(steam)
                &&& !new.ephemeral
                &&& step.refresh_from_steam == Some(steam)
                &&& match q.display_name {
                    Some(n) => new.account.display_name@ == n@,
                    None => new.account.display_name == old.account.display_name,
                }
            },
            None => {
                &&& new.steam_id == old.steam_id
                &&& new.ephemeral == old.ephemeral
                &&& new.account.display_name == old.account.display_name
                &&& step.refresh_from_steam is None
            },
        },
        None => {
            &&& new.steam_id == old.steam_id
            &&& new.ephemeral == old.ephemeral
            &&& new.account.display_name == old.account.display_name
            &&& step.refresh_from_steam is None
        },
    }
}

pub fn handle_signon(request: &BapFrame, session: &mut SessionHandler, parsed: Option<SignonPayload>) -> (step:
    SessionStep)
    ensures
        signon_effect(*old(session), *final(session), *request, parsed, step),
{
    let p = if request.payload.len() == 0 {
        None
    } else {
        parsed
    };
    let mut refresh: Option<u64> = None;
    match p {
        Some(q) => {
            match q.steam_id {
                Some(steam) => {
                    session.steam_id = Some(steam);
                    match q.display_name {
                        Some(name) => {
                            session.account.display_name = name;
                        },
                        None => {},
                    }
                    session.ephemeral = false;
                    refresh = Some(steam);
                },
                None => {},
            }
        },
        None => {},
    }
    let mut ack: Vec<u8> = Vec::new();
    ack.push(0);
    ack.push(1);
    ack.push(2);
    ack.push(3);
    proof {
        assert(ack@ =~= signon_ack());
    }
    let mut step = envelope(request, ServiceStatusCode::Success, 1, ReplyBody::Bytes(ack), false);
    step.refresh_from_steam = refresh;
    step
}

/// What a BindUdp does: with a non-zero port in a non-empty payload, the
/// client record of the session gets the session's host at that port as its
/// UDP address (the address index is left as it is) and the answer is a
/// success envelope naming that address; otherwise the answer is a
/// MalformedRequest envelope with an empty body and nothing changes.
pub open spec fn bind_udp_effect(
    old: SessionHandler,
    new: SessionHandler,
    old_reg: ClientRegistry,
    new_reg: ClientRegistry,
    request: BapFrame,
    parsed: Option<BindPayload>,
    step: SessionStep,
) -> bool {
    let p = if request.payload@.len() == 0 { None } else { parsed };
    let port = match p {
        Some(q) => match q.udp_port {
            Some(x) => x,
            None => 0,
        },
        None => 0,
    };
    let addr = PeerAddr { port, ..old.peer_addr };
    let h = old.registry_handle;
    &&& new == old
    &&& new_reg.wf()
    &&& forall|a: PeerAddr| #[trigger] new_reg.udp_owner(a) == old_reg.udp_owner(a)
    &&& if port > 0 {
        &&& envelope_step(step, request, ServiceStatusCode::Success, 1, false)
        &&& step_body(step) == Some(ReplyBody::UdpSourceJson(addr))
        &&& new_reg.clients().dom() == old_reg.clients().dom()
        &&& forall|id: u64| id != h ==> #[trigger] new_reg.clients()[id] == old_reg.clients()[id]
        &&& old_reg.clients().contains_key(h) ==> ({
            let n = new_reg.clients()[h];
            let o = old_reg.clients()[h];
            &&& n.udp_source == Some(addr)
            &&& n.membership_id == o.membership_id
            &&& n.display_name == o.display_name
            &&& n.ephemeral == o.ephemeral
            &&& n.outbound == o.outbound
        })
    } else {
        &&& envelope_step(step, request, ServiceStatusCode::MalformedRequest, 1, false)
        &&& step_body(step) matches Some(ReplyBody::Bytes(b)) && b@.len() == 0
        &&& new_reg.clients() == old_reg.clients()
    }
}

pub fn handle_bind_udp(
    request: &BapFrame,
    session: &mut SessionHandler,
    parsed: Option<BindPayload>,
    registry: &mut ClientRegistry,
) -> (step: SessionStep)
    requires
        old(registry).wf(),
    ensures
        bind_udp_effect(*old(session), *final(session), *old(registry), *final(registry), *request, parsed, step),
{
    let p = if request.payload.len() == 0 {
        None
    } else {
        parsed
    };
    let port: u16 = match p {
        Some(q) => match q.udp_port {
            Some(x) => x,
            None => 0,
        },
        None => 0,
    };
    if port == 0 {
        return envelope(request, ServiceStatusCode::MalformedRequest, 1, ReplyBody::Bytes(Vec::new()), false);
    }
    let full_addr = session.peer_addr.with_port(port);
    let _ = registry.set_udp_source(session.registry_handle, Some(full_addr));
    envelope(request, ServiceStatusCode::Success, 1, ReplyBody::UdpSourceJson(full_addr), false)
}

/// A success envelope of version 4 carrying the account as JSON.
pub fn handle_account_summary(request: &BapFrame, session: &SessionHandler) -> (step: SessionStep)
    ensures
        envelope_step(step, *request, ServiceStatusCode::Success, 4, false),
        step_body(step) == Some(ReplyBody::AccountJson),
{
    envelope(request, ServiceStatusCode::Success, 4, ReplyBody::AccountJson, false)
}

/// A success envelope of version 4 carrying the characters as JSON.
pub fn handle_character_inventory(request: &BapFrame, session: &SessionHandler) -> (step: SessionStep)
    ensures
        envelope_step(step, *request, ServiceStatusCode::Success, 4, false),
        step_body(step) == Some(ReplyBody::CharactersJson),
{
    envelope(request, ServiceStatusCode::Success, 4, ReplyBody::CharactersJson, false)
}

/// What EquipItem does: the first character's light is recalculated, the
/// account is to be saved, and the answer is an empty success envelope.
pub open spec fn equip_effect(old: SessionHandler, new: SessionHandler, request: BapFrame, step: SessionStep) -> bool {
    &&& success_empty_step(step, request, true)
    &&& new.store == old.store
    &&& new.active_destination_hash == old.active_destination_hash
    &&& new.steam_id == old.steam_id
    &&& new.ephemeral == old.ephemeral
    &&& new.peer_addr == old.peer_addr
    &&& new.registry_handle == old.registry_handle
    &&& new.account.membership_id == old.account.membership_id
    &&& new.account.display_name == old.account.display_name
    &&& new.account.characters@.len() == old.account.characters@.len()
    &&& forall|i: int| 1 <= i < old.account.characters@.len() ==> #[trigger] new.account.characters@[i]
        == old.account.characters@[i]
    &&& old.account.characters@.len() > 0 ==> ({
        let n = new.account.characters@[0];
        let o = old.account.characters@[0];
        &&& n.light_level == recalculated_light(o)
        &&& n.character_id == o.character_id
        &&& n.class_type == o.class_type
        &&& n.inventory == o.inventory
    })
}

pub fn handle_equip_item(request: &BapFrame, session: &mut SessionHandler) -> (step: SessionStep)
    ensures
        equip_effect(*old(session), *final(session), *request, step),
{
    match session.account.get_first_character_mut() {
        Some(character) => {
            character.recalculate_light();
        },
        None => {},
    }
    success_empty(request, true)
}

/// The account is to be saved; the answer is an empty success envelope.
pub fn handle_transfer_item(request: &BapFrame, session: &SessionHandler) -> (step: SessionStep)
    ensures
        success_empty_step(step, *request, true),
{
    success_empty(request, true)
}

/// The account is to be saved; the answer is an empty success envelope.
pub fn handle_set_item_lock_state(request: &BapFrame, session: &SessionHandler) -> (step: SessionStep)
    ensures
        success_empty_step(step, *request, true),
{
    success_empty(request, true)
}

/// The account is to be saved; the answer is an empty success envelope.
pub fn handle_set_socket_selection(request: &BapFrame, session: &SessionHandler) -> (step: SessionStep)
    ensures
        success_empty_step(step, *request, true),
{
    success_empty(request, true)
}

/// A bare QueueZ frame carrying `queuez_token`.
pub fn handle_queuez(request: &BapFrame, session: &SessionHandler) -> (step: SessionStep)
    ensures
        step.reply matches SessionReply::Frame(f) && f.transaction_id == request.transaction_id && f.opcode
            == Opcode::QueueZ && f.payload@ == queuez_token(),
        !step.save_account,
        step.refresh_from_steam is None,
{
    let mut token: Vec<u8> = Vec::new();
    token.push(0x08);
    token.push(0x01);
    token.push(0x10);
    token.push(0x00);
    proof {
        assert(token@ =~= queuez_token());
    }
    SessionStep {
        reply: SessionReply::Frame(BapFrame::new(request.transaction_id, Opcode::QueueZ, token)),
        save_account: false,
        refresh_from_steam: None,
    }
}

/// A success envelope carrying the session's destination as JSON.
pub open spec fn matchmaking_effect(session: SessionHandler, request: BapFrame, step: SessionStep) -> bool {
    &&& envelope_step(step, request, ServiceStatusCode::Success, 1, false)
    &&& step_body(step) matches Some(ReplyBody::DestinationJson(d)) && match destination_index(
        session.active_destination_hash,
    ) {
        Some(i) => d matches Some(m) && m@ == destination_table()[i],
        None => d is None,
    }
}

/// A success envelope carrying the session's destination as JSON.
pub fn handle_activity_matchmaking(request: &BapFrame, session: &SessionHandler) -> (step: SessionStep)
    ensures
        matchmaking_effect(*session, *request, step),
{
    let dest = ActivityDirector::lookup_destination(session.active_destination_hash);
    envelope(request, ServiceStatusCode::Success, 1, ReplyBody::DestinationJson(dest), false)
}

/// The effect of `handle_activity_join`.
pub open spec fn join_effect(
    old: SessionHandler,
    new: SessionHandler,
    old_team: Fireteam,
    new_team: Fireteam,
    request: BapFrame,
    parsed: Option<ActivityPayload>,
    step: SessionStep,
) -> bool {
    let a = chosen_activity(parsed, old.active_destination_hash);
    let d = chosen_destination(parsed, old.active_destination_hash);
    &&& envelope_step(step, request, ServiceStatusCode::Success, 1, false)
    &&& step_body(step) == Some(
        ReplyBody::JoinJson {
            activity_hash: a,
            destination_hash: d,
            membership_id: old.account.membership_id,
        },
    )
    &&& new.active_destination_hash == d
    &&& new.account == old.account
    &&& new.store == old.store
    &&& new.steam_id == old.steam_id
    &&& new.ephemeral == old.ephemeral
    &&& new.peer_addr == old.peer_addr
    &&& new.registry_handle == old.registry_handle
    &&& new_team.sessions_spec().contains_key(a)
    &&& new_team.sessions_spec()[a].participants@ == if old_team.sessions_spec().contains_key(a) {
        joined(old_team.sessions_spec()[a].participants@, old.account.membership_id)
    } else {
        seq![old.account.membership_id]
    }
    &&& forall|h: u32| h != a ==> #[trigger] new_team.sessions_spec()[h] == old_team.sessions_spec()[h]
}

/// A join request that names a destination moves the session there and the
/// answer names it; one that names none leaves the session where it was. The
/// account joins the activity the request names, else the session's former
/// destination, and the answer names that activity and the account.
pub proof fn lemma_join_follows_request(
    old: SessionHandler,
    new: SessionHandler,
    old_team: Fireteam,
    new_team: Fireteam,
    request: BapFrame,
    parsed: Option<ActivityPayload>,
    step: SessionStep,
)
    requires
        join_effect(old, new, old_team, new_team, request, parsed, step),
    ensures
        parsed is Some && parsed->0.destination_hash is Some ==> {
            let h = parsed->0.destination_hash->0;
            &&& new.active_destination_hash == h
            &&& step_body(step) matches Some(ReplyBody::JoinJson { destination_hash, .. }) && destination_hash == h
        },
        !(parsed is Some && parsed->0.destination_hash is Some) ==> {
            &&& new.active_destination_hash == old.active_destination_hash
            &&& step_body(step) matches Some(ReplyBody::JoinJson { destination_hash, .. })
                && destination_hash == old.active_destination_hash
        },
        parsed is Some && parsed->0.activity_hash is Some ==> {
            let a = parsed->0.activity_hash->0;
            &&& new_team.sessions_spec().contains_key(a)
            &&& step_body(step) matches Some(ReplyBody::JoinJson { activity_hash, membership_id, .. })
                && activity_hash == a && membership_id == old.account.membership_id
        },
        !(parsed is Some && parsed->0.activity_hash is Some) ==> {
            &&& new_team.sessions_spec().contains_key(old.active_destination_hash)
            &&& step_body(step) matches Some(ReplyBody::JoinJson { activity_hash, .. })
                && activity_hash == old.active_destination_hash
        },
{
}

/// What ActivityJoin does: the account joins the activity the request names
/// (else the session's destination), the session moves to the destination
/// the request names (else stays), and the answer names both and the
/// membership id.
pub fn handle_activity_join(
    request: &BapFrame,
    session: &mut SessionHandler,
    parsed: Option<ActivityPayload>,
    fireteam: &mut Fireteam,
) -> (step: SessionStep)
    ensures
        join_effect(*old(session), *final(session), *old(fireteam), *final(fireteam), *request, parsed, step),
        parsed is Some && parsed->0.destination_hash is Some ==> final(session).active_destination_hash
            == parsed->0.destination_hash->0,
        !(parsed is Some && parsed->0.destination_hash is Some) ==> final(session).active_destination_hash
            == old(session).active_destination_hash,
        parsed is Some && parsed->0.activity_hash is Some ==> final(fireteam).sessions_spec().contains_key(
            parsed->0.activity_hash->0,
        ),
{
    let (activity_hash, destination_hash) = activity_or(&parsed, session.active_destination_hash);
    fireteam.join(activity_hash, destination_hash, session.account.membership_id);
    session.active_destination_hash = destination_hash;
    envelope(
        request,
        ServiceStatusCode::Success,
        1,
        ReplyBody::JoinJson { activity_hash, destination_hash, membership_id: session.account.membership_id },
        false,
    )
}

/// The effect of `handle_activity_leave`.
pub open spec fn leave_effect(
    session: SessionHandler,
    old_team: Fireteam,
    new_team: Fireteam,
    request: BapFrame,
    parsed: Option<ActivityPayload>,
    step: SessionStep,
) -> bool {
    let a = chosen_activity(parsed, session.active_destination_hash);
    let m = session.account.membership_id;
    &&& success_empty_step(step, request, false)
    &&& !old_team.sessions_spec().contains_key(a) ==> new_team.sessions_spec() == old_team.sessions_spec()
    &&& old_team.sessions_spec().contains_key(a) ==> ({
        let rest = left(old_team.sessions_spec()[a].participants@, m);
        &&& rest.len() == 0 ==> new_team.sessions_spec() == old_team.sessions_spec().remove(a)
        &&& rest.len() > 0 ==> new_team.sessions_spec().contains_key(a) && new_team.sessions_spec()[a].participants@
            == rest
        &&& forall|h: u32| h != a ==> #[trigger] new_team.sessions_spec()[h] == old_team.sessions_spec()[h]
    })
}

/// The account leaves the activity the request names (else the session's
/// destination); the answer is an empty success envelope.
pub fn handle_activity_leave(
    request: &BapFrame,
    session: &SessionHandler,
    parsed: Option<ActivityPayload>,
    fireteam: &mut Fireteam,
) -> (step: SessionStep)
    ensures
        leave_effect(*session, *old(fireteam), *final(fireteam), *request, parsed, step),
{
    let (activity_hash, _) = activity_or(&parsed, session.active_destination_hash);
    fireteam.leave(activity_hash, session.account.membership_id);
    success_empty(request, false)
}

/// The effect of `handle_fireteam_broadcast`.
pub open spec fn broadcast_effect(
    session: SessionHandler,
    team: Fireteam,
    old_reg: ClientRegistry,
    new_reg: ClientRegistry,
    request: BapFrame,
    parsed: Option<ActivityPayload>,
    step: SessionStep,
) -> bool {
    let a = chosen_activity(parsed, session.active_destination_hash);
    &&& success_empty_step(step, request, false)
    &&& new_reg.wf()
    &&& forall|x: PeerAddr| #[trigger] new_reg.udp_owner(x) == old_reg.udp_owner(x)
    &&& new_reg.clients().dom() == old_reg.clients().dom()
    &&& !team.sessions_spec().contains_key(a) ==> new_reg.clients() == old_reg.clients()
    &&& team.sessions_spec().contains_key(a) ==> forall|id: u64| #[trigger]
        old_reg.clients().contains_key(id) ==> queued_more(
            new_reg.clients()[id],
            old_reg.clients()[id],
            request,
            broadcast_count(team.sessions_spec()[a].participants@, session.account.membership_id, id),
        )
}

/// The request is queued for every other participant of the activity it
/// names (else the session's destination); the answer is an empty success
/// envelope.
pub fn handle_fireteam_broadcast(
    request: &BapFrame,
    session: &SessionHandler,
    parsed: Option<ActivityPayload>,
    fireteam: &Fireteam,
    registry: &mut ClientRegistry,
) -> (step: SessionStep)
    requires
        old(registry).wf(),
    ensures
        broadcast_effect(*session, *fireteam, *old(registry), *final(registry), *request, parsed, step),
{
    let (activity_hash, _) = activity_or(&parsed, session.active_destination_hash);
    fireteam.broadcast_to_others(activity_hash, session.account.membership_id, request, registry);
    success_empty(request, false)
}

/// An empty success envelope.
pub fn handle_default(request: &BapFrame, session: &SessionHandler) -> (step: SessionStep)
    ensures
        success_empty_step(step, *request, false),
{
    success_empty(request, false)
}

/// The part of a parsed payload a Signon reads.
pub open spec fn signon_part(p: RequestPayload) -> Option<SignonPayload> {
    match p {
        RequestPayload::Signon(q) => Some(q),
        _ => None,
    }
}

/// The part of a parsed payload an activity request reads.
pub open spec fn activity_part(p: RequestPayload) -> Option<ActivityPayload> {
    match p {
        RequestPayload::Activity(q) => Some(q),
        _ => None,
    }
}

/// The part of a parsed payload a BindUdp reads.
pub open spec fn bind_part(p: RequestPayload) -> Option<BindPayload> {
    match p {
        RequestPayload::BindUdp(q) => Some(q),
        _ => None,
    }
}

impl SessionHandler {
    /// Answers one request frame; `parsed` is its payload read as
    /// `payload_kind` says.
    pub fn handle_frame(
        &mut self,
        request: &BapFrame,
        parsed: RequestPayload,
        registry: &mut ClientRegistry,
        fireteam: &mut Fireteam,
    ) -> (step: SessionStep)
        requires
            old(registry).wf(),
        ensures
            final(registry).wf(),
            match request.opcode {
                Opcode::Signon | Opcode::SignonExtended => signon_effect(
                    *old(self),
                    *final(self),
                    *request,
                    signon_part(parsed),
                    step,
                ) && *final(registry) == *old(registry) && *final(fireteam) == *old(fireteam),
                Opcode::BindUdp => bind_udp_effect(
                    *old(self),
                    *final(self),
                    *old(registry),
                    *final(registry),
                    *request,
                    bind_part(parsed),
                    step,
                ) && *final(fireteam) == *old(fireteam),
                Opcode::AccountSummary => envelope_step(step, *request, ServiceStatusCode::Success, 4, false)
                    && step_body(step) == Some(ReplyBody::AccountJson) && *final(self) == *old(self) && *final(registry) == *old(registry) && *final(fireteam) == *old(fireteam),
                Opcode::CharacterInventory => envelope_step(step, *request, ServiceStatusCode::Success, 4, false)
                    && step_body(step) == Some(ReplyBody::CharactersJson) && *final(self) == *old(self) && *final(registry) == *old(registry) && *final(fireteam) == *old(fireteam),
                Opcode::EquipItem => equip_effect(*old(self), *final(self), *request, step) && *final(registry) == *old(registry) && *final(fireteam) == *old(fireteam),
                Opcode::TransferItem | Opcode::SetItemLockState | Opcode::SetSocketSelection => success_empty_step(
                    step,
                    *request,
                    true,
                ) && *final(self) == *old(self) && *final(registry) == *old(registry) && *final(fireteam) == *old(fireteam),
                Opcode::QueueZ => step.reply matches SessionReply::Frame(f) && f.transaction_id == request.transaction_id
                    && f.opcode == Opcode::QueueZ && f.payload@ == queuez_token() && !step.save_account
                    && step.refresh_from_steam is None && *final(self) == *old(self) && *final(registry) == *old(registry) && *final(fireteam) == *old(fireteam),
                Opcode::ActivityMatchmaking => matchmaking_effect(*old(self), *request, step) && *final(self) == *old(self) && *final(registry) == *old(registry) && *final(fireteam) == *old(fireteam),
                Opcode::ActivityJoin => join_effect(
                    *old(self),
                    *final(self),
                    *old(fireteam),
                    *final(fireteam),
                    *request,
                    activity_part(parsed),
                    step,
                ) && *final(registry) == *old(registry),
                Opcode::ActivityLeave => leave_effect(
                    *old(self),
                    *old(fireteam),
                    *final(fireteam),
                    *request,
                    activity_part(parsed),
                    step,
                ) && *final(self) == *old(self) && *final(registry) == *old(registry),
                Opcode::FireteamBroadcast => broadcast_effect(
                    *old(self),
                    *old(fireteam),
                    *old(registry),
                    *final(registry),
                    *request,
                    activity_part(parsed),
                    step,
                ) && *final(self) == *old(self) && *final(fireteam) == *old(fireteam),
                Opcode::Unknown(_) => success_empty_step(step, *request, false) && *final(self) == *old(self)
                    && *final(registry) == *old(registry) && *final(fireteam) == *old(fireteam),
            },
    {
        match request.opcode {
            Opcode::Signon | Opcode::SignonExtended => {
                let p = match parsed {
                    RequestPayload::Signon(q) => Some(q),
                    _ => None,
                };
                handle_signon(request, self, p)
            },
            Opcode::BindUdp => {
                let p = match parsed {
                    RequestPayload::BindUdp(q) => Some(q),
                    _ => None,
                };
                handle_bind_udp(request, self, p, registry)
            },
            Opcode::AccountSummary => handle_account_summary(request, self),
            Opcode::CharacterInventory => handle_character_inventory(request, self),
            Opcode::EquipItem => handle_equip_item(request, self),
            Opcode::TransferItem => handle_transfer_item(request, self),
            Opcode::SetItemLockState => handle_set_item_lock_state(request, self),
            Opcode::SetSocketSelection => handle_set_socket_selection(request, self),
            Opcode::QueueZ => handle_queuez(request, self),
            Opcode::ActivityMatchmaking => handle_activity_matchmaking(request, self),
            Opcode::ActivityJoin => {
                let p = match parsed {
                    RequestPayload::Activity(q) => Some(q),
                    _ => None,
                };
                handle_activity_join(request, self, p, fireteam)
            },
            Opcode::ActivityLeave => {
                let p = match parsed {
                    RequestPayload::Activity(q) => Some(q),
                    _ => None,
                };
                handle_activity_leave(request, self, p, fireteam)
            },
            Opcode::FireteamBroadcast => {
                let p = match parsed {
                    RequestPayload::Activity(q) => Some(q),
                    _ => None,
                };
                handle_fireteam_broadcast(request, self, p, fireteam, registry)
            },
            Opcode::Unknown(_) => handle_default(request, self),
        }
    }
}

} // verus!
