use thanatonaut::error::SunriseError;
use thanatonaut::protocol::bap_frame::BapFrame;
use thanatonaut::protocol::envelope::{ServiceResponseEnvelope, ServiceStatusCode};
use thanatonaut::protocol::opcode::Opcode;
use thanatonaut::protocol::udp_packet::{PlayerPosition, UdpOpcode, UdpPacket, WorldSnapshot};
use thanatonaut::server::client_registry::{ClientHandle, ClientRegistry};
use thanatonaut::server::fireteam::Fireteam;
use thanatonaut::server::outbound_queue::OutboundQueue;
use thanatonaut::server::session_handler::{
    envelope_frame, payload_kind, ActivityPayload, BindPayload, PayloadKind, ReplyBody, RequestPayload,
    SessionHandler, SessionReply, SignonPayload,
};
use thanatonaut::server::tcp_server::{bind_address, decode_frames};
use thanatonaut::server::udp_bindings::PeerAddr;
use thanatonaut::server::udp_server::{build_snapshot_bytes, dispatch};
use thanatonaut::server::world_state::WorldState;
use thanatonaut::state::account::AccountState;
use thanatonaut::state::profile_store::ProfileStore;

fn sock(a: u8, b: u8, c: u8, d: u8, port: u16) -> PeerAddr {
    PeerAddr { ip: u32::from_be_bytes([a, b, c, d]) as u128, is_v6: false, port }
}

fn position(x: f32, y: f32, z: f32, yaw: f32, pitch: f32) -> PlayerPosition {
    PlayerPosition { x: x.to_bits(), y: y.to_bits(), z: z.to_bits(), yaw: yaw.to_bits(), pitch: pitch.to_bits() }
}

#[test]
fn update_and_snapshot_roundtrip() {
    let mut ws = WorldState::new();
    ws.update_position(1001, position(1.0, 2.0, 3.0, 0.0, 0.0));
    ws.update_position(1002, position(4.0, 5.0, 6.0, 1.0, 0.5));

    let snap = ws.snapshot();
    assert_eq!(snap.players.len(), 2);
    assert!(snap.sequence >= 1);

    let mut by_id: std::collections::HashMap<u64, PlayerPosition> = snap.players.into_iter().collect();
    assert_eq!(f32::from_bits(by_id.remove(&1001).unwrap().x), 1.0);
    assert_eq!(f32::from_bits(by_id.remove(&1002).unwrap().z), 6.0);
}

#[test]
fn remove_player_drops_from_snapshot() {
    let mut ws = WorldState::new();
    ws.update_position(1001, position(0.0, 0.0, 0.0, 0.0, 0.0));
    ws.update_position(1002, position(1.0, 1.0, 1.0, 0.0, 0.0));
    assert_eq!(ws.player_count(), 2);

    ws.remove_player(1001);
    assert_eq!(ws.player_count(), 1);
}

#[test]
fn sequence_increments_per_snapshot() {
    let mut ws = WorldState::new();
    let s1 = ws.snapshot().sequence;
    let s2 = ws.snapshot().sequence;
    assert_eq!(s2, s1.wrapping_add(1));
}

#[test]
fn build_snapshot_bytes_returns_valid_frame() {
    let mut world = WorldState::new();
    world.update_position(1, position(1.0, 2.0, 3.0, 0.0, 0.0));
    world.update_position(2, position(4.0, 5.0, 6.0, 1.0, 0.5));
    let bytes = build_snapshot_bytes(&mut world).expect("snapshot encode");
    let pkt = UdpPacket::decode(&bytes).expect("snapshot decode");
    assert_eq!(pkt.opcode, UdpOpcode::WorldSnapshot);
    assert_eq!(pkt.payload.len(), 8 + 2 * (8 + 20));
    let snap = WorldSnapshot::decode(&pkt.payload).unwrap();
    assert_eq!(snap.sequence, pkt.sequence);
    assert_eq!(snap.players.len(), 2);
}

#[test]
fn register_records_both_indices() {
    let mut reg = ClientRegistry::new();
    let peer = sock(127, 0, 0, 1, 5000);
    let handle = reg.register(42, "Guardian", peer);
    assert_eq!(handle.membership_id, 42);
    assert_eq!(handle.display_name, "Guardian");
    assert_eq!(reg.client_count(), 1);
    assert_eq!(reg.lookup_by_udp(peer).map(|h| h.membership_id), Some(42));
}

#[test]
fn unregister_drops_udp_mapping() {
    let mut reg = ClientRegistry::new();
    let peer = sock(10, 0, 0, 1, 7000);
    let id = reg.register(7, "Ephemeral", peer).membership_id;
    reg.unregister(id);
    assert!(reg.lookup_by_udp(peer).is_none());
    assert_eq!(reg.client_count(), 0);
}

#[test]
fn bind_udp_source_moves_the_binding() {
    let mut reg = ClientRegistry::new();
    let first = sock(10, 0, 0, 1, 7000);
    let second = sock(10, 0, 0, 1, 7001);
    reg.register(7, "A", first);
    assert!(reg.bind_udp_source(7, second));
    assert!(reg.lookup_by_udp(first).is_none());
    assert_eq!(reg.lookup_by_udp(second).unwrap().membership_id, 7);
    assert_eq!(reg.get(7).unwrap().udp_source(), Some(second));
    assert!(!reg.bind_udp_source(8, first));
    let mut ids = reg.all_membership_ids();
    ids.sort();
    assert_eq!(ids, vec![7]);
}

#[test]
fn upsert_replaces_handle_and_stale_bindings() {
    let mut reg = ClientRegistry::new();
    let a = sock(1, 1, 1, 1, 1);
    let b = sock(2, 2, 2, 2, 2);
    reg.register(5, "old", a);
    let mut h = ClientHandle::new(5, "new", false);
    h.set_udp_source(Some(b));
    let stored = reg.upsert(h);
    assert_eq!(stored.display_name, "new");
    assert!(reg.lookup_by_udp(a).is_none());
    assert_eq!(reg.lookup_by_udp(b).unwrap().display_name, "new");
}

#[test]
fn outbound_queue_is_fifo() {
    let mut q = OutboundQueue::new();
    assert!(q.is_empty());
    q.push(BapFrame::new(1, Opcode::Signon, vec![]));
    q.push(BapFrame::new(2, Opcode::Signon, vec![]));
    assert_eq!(q.len(), 2);
    assert_eq!(q.try_drain_next().unwrap().transaction_id, 1);
    assert_eq!(q.try_drain_next().unwrap().transaction_id, 2);
    assert!(q.try_drain_next().is_none());
}

#[test]
fn join_creates_session_and_is_idempotent() {
    let mut ft = Fireteam::new();
    ft.join(100, 200, 1);
    ft.join(100, 200, 1);
    ft.join(100, 200, 2);
    assert_eq!(ft.participant_count(100), 2);
    assert_eq!(ft.session_count(), 1);
}

#[test]
fn leave_removes_empty_session() {
    let mut ft = Fireteam::new();
    ft.join(100, 200, 1);
    ft.leave(100, 1);
    assert_eq!(ft.session_count(), 0);
    assert_eq!(ft.participant_count(100), 0);
}

#[test]
fn participants_snapshot() {
    let mut ft = Fireteam::new();
    ft.join(100, 200, 1);
    ft.join(100, 200, 2);
    ft.join(100, 200, 3);
    let mut p = ft.participants(100);
    p.sort();
    assert_eq!(p, vec![1, 2, 3]);
}

#[test]
fn broadcast_to_others_skips_sender_and_routes_via_registry() {
    let mut reg = ClientRegistry::new();
    let mut ft = Fireteam::new();
    reg.register(1, "A", sock(127, 0, 0, 1, 1));
    reg.register(2, "B", sock(127, 0, 0, 1, 2));
    reg.register(3, "C", sock(127, 0, 0, 1, 3));
    ft.join(100, 200, 1);
    ft.join(100, 200, 2);
    ft.join(100, 200, 3);

    let frame = BapFrame::new(7, Opcode::Signon, vec![1, 2, 3]);
    ft.broadcast_to_others(100, 2, &frame, &mut reg);

    assert_eq!(reg.get(1).unwrap().outbound.len(), 1);
    assert_eq!(reg.get(2).unwrap().outbound.len(), 0);
    assert_eq!(reg.get(3).unwrap().outbound.len(), 1);
    assert_eq!(reg.drain_outbound(1).unwrap(), frame);
}

#[test]
fn missing_session_is_safe() {
    let mut reg = ClientRegistry::new();
    let mut ft = Fireteam::new();
    assert_eq!(ft.participant_count(999), 0);
    assert_eq!(ft.participants(999), Vec::<u64>::new());
    ft.leave(999, 1);
    let frame = BapFrame::new(1, Opcode::Signon, vec![]);
    ft.broadcast_to_others(999, 1, &frame, &mut reg);
}

fn session(reg: &mut ClientRegistry) -> SessionHandler {
    SessionHandler::new(1000, "Ephemeral-1000", sock(127, 0, 0, 1, 40000), reg, AccountState::new(1000, "Ephemeral-1000"), ProfileStore::with_path("/tmp/unused.json"))
}

fn envelope_of(step_reply: SessionReply, body: Vec<u8>) -> ServiceResponseEnvelope {
    match step_reply {
        SessionReply::Envelope(e) => {
            let frame = envelope_frame(e, body);
            ServiceResponseEnvelope::decode(&frame.payload).unwrap()
        }
        SessionReply::Frame(_) => panic!("expected an envelope"),
    }
}

#[test]
fn signon_with_steam_id_asks_for_the_profile() {
    let mut reg = ClientRegistry::new();
    let mut ft = Fireteam::new();
    let mut s = session(&mut reg);
    let request = BapFrame::new(9, Opcode::Signon, b"{}".to_vec());
    let parsed = RequestPayload::Signon(SignonPayload { steam_id: Some(76561197960287930), display_name: Some("Bob".to_string()) });
    let step = s.handle_frame(&request, parsed, &mut reg, &mut ft);
    assert_eq!(step.refresh_from_steam, Some(76561197960287930));
    assert!(!s.ephemeral);
    assert_eq!(s.account.display_name, "Bob");
    let env = envelope_of(step.reply, vec![0u8, 1, 2, 3]);
    assert_eq!(env.payload, vec![0, 1, 2, 3]);
    assert_eq!(env.status, ServiceStatusCode::Success);
    assert!(s.refresh_account_from_steam(None));
    assert_eq!(s.account.membership_id, ProfileStore::hash_steam_id_to_membership(76561197960287930));
    assert_eq!(s.account.characters.len(), 3);
}

#[test]
fn empty_signon_changes_nothing() {
    let mut reg = ClientRegistry::new();
    let mut ft = Fireteam::new();
    let mut s = session(&mut reg);
    let request = BapFrame::new(9, Opcode::SignonExtended, vec![]);
    let parsed = RequestPayload::Signon(SignonPayload { steam_id: Some(5), display_name: None });
    let step = s.handle_frame(&request, parsed, &mut reg, &mut ft);
    assert!(step.refresh_from_steam.is_none());
    assert!(s.ephemeral);
}

#[test]
fn bind_udp_requires_a_port() {
    let mut reg = ClientRegistry::new();
    let mut ft = Fireteam::new();
    let mut s = session(&mut reg);
    let request = BapFrame::new(3, Opcode::BindUdp, b"{\"udp_port\":0}".to_vec());
    let step = s.handle_frame(&request, RequestPayload::BindUdp(BindPayload { udp_port: Some(0) }), &mut reg, &mut ft);
    let env = envelope_of(step.reply, vec![]);
    assert_eq!(env.status, ServiceStatusCode::MalformedRequest);
    let step = s.handle_frame(&request, RequestPayload::BindUdp(BindPayload { udp_port: Some(6000) }), &mut reg, &mut ft);
    match step.reply {
        SessionReply::Envelope(e) => match e.body {
            ReplyBody::UdpSourceJson(addr) => assert_eq!(addr, sock(127, 0, 0, 1, 6000)),
            _ => panic!("expected the address"),
        },
        _ => panic!("expected an envelope"),
    }
    assert_eq!(reg.get(1000).unwrap().udp_source(), Some(sock(127, 0, 0, 1, 6000)));
}

#[test]
fn queuez_and_join_and_broadcast() {
    let mut reg = ClientRegistry::new();
    let mut ft = Fireteam::new();
    let mut s = session(&mut reg);
    let step = s.handle_frame(&BapFrame::new(1, Opcode::QueueZ, vec![]), RequestPayload::Nothing, &mut reg, &mut ft);
    match step.reply {
        SessionReply::Frame(f) => {
            assert_eq!(f.payload, vec![0x08u8, 0x01, 0x10, 0x00]);
            assert_eq!(f.opcode, Opcode::QueueZ);
        }
        _ => panic!("expected a frame"),
    }
    let join = BapFrame::new(2, Opcode::ActivityJoin, vec![]);
    let parsed = RequestPayload::Activity(ActivityPayload { activity_hash: Some(2693136600), destination_hash: None });
    let step = s.handle_frame(&join, parsed, &mut reg, &mut ft);
    match step.reply {
        SessionReply::Envelope(e) => match e.body {
            ReplyBody::JoinJson { activity_hash, destination_hash, membership_id } => {
                assert_eq!(activity_hash, 2693136600);
                assert_eq!(destination_hash, 373711905);
                assert_eq!(membership_id, 1000);
            }
            _ => panic!("expected the join body"),
        },
        _ => panic!("expected an envelope"),
    }
    assert_eq!(ft.participants(2693136600), vec![1000]);
    let leave = BapFrame::new(3, Opcode::ActivityLeave, vec![]);
    let parsed = RequestPayload::Activity(ActivityPayload { activity_hash: Some(2693136600), destination_hash: None });
    let _ = s.handle_frame(&leave, parsed, &mut reg, &mut ft);
    assert_eq!(ft.session_count(), 0);
    assert_eq!(payload_kind(Opcode::FireteamBroadcast), PayloadKind::Activity);
    assert_eq!(payload_kind(Opcode::QueueZ), PayloadKind::Nothing);
}

#[test]
fn equip_recalculates_and_saves() {
    let mut reg = ClientRegistry::new();
    let mut ft = Fireteam::new();
    let mut s = session(&mut reg);
    s.account = ProfileStore::new_profile(1000, "x");
    s.account.characters[0].light_level = 0;
    let step = s.handle_frame(&BapFrame::new(4, Opcode::EquipItem, vec![]), RequestPayload::Nothing, &mut reg, &mut ft);
    assert!(step.save_account);
    assert_eq!(s.account.characters[0].light_level, 1050);
    let env = envelope_of(step.reply, vec![]);
    assert_eq!(env.version, 1);
    assert!(env.payload.is_empty());
}

#[test]
fn udp_dispatch_heartbeat_and_position() {
    let mut reg = ClientRegistry::new();
    let mut world = WorldState::new();
    let peer = sock(127, 0, 0, 1, 5555);
    let hb = UdpPacket::new(UdpOpcode::Heartbeat, 42, vec![]).encode().unwrap();
    let reply = dispatch(&hb, peer, &reg, &mut world).unwrap().unwrap();
    let echoed = UdpPacket::decode(&reply).unwrap();
    assert_eq!(echoed.opcode, UdpOpcode::Heartbeat);
    assert_eq!(echoed.sequence, 42);
    let pos = position(10.0, 20.0, 30.0, 0.0, 0.0);
    let packet = UdpPacket::new(UdpOpcode::PlayerPosition, 1, pos.to_bytes()).encode().unwrap();
    assert!(dispatch(&packet, peer, &reg, &mut world).unwrap().is_none());
    reg.register(1001, "TestPlayer", peer);
    let reply = dispatch(&packet, peer, &reg, &mut world).unwrap().unwrap();
    let pkt = UdpPacket::decode(&reply).unwrap();
    let snap = WorldSnapshot::decode(&pkt.payload).unwrap();
    assert_eq!(snap.players, vec![(1001, pos)]);
    assert!(dispatch(&[1, 2, 3], peer, &reg, &mut world).unwrap().is_none());
}

#[test]
fn udp_dispatch_reports_oversized_snapshot() {
    let mut reg = ClientRegistry::new();
    let mut world = WorldState::new();
    for id in 0..2340u64 {
        world.update_position(id + 1_000_000, position(0.0, 0.0, 0.0, 0.0, 0.0));
    }
    let peer = sock(127, 0, 0, 1, 6000);
    reg.register(7, "Late", peer);
    let hb = UdpPacket::new(UdpOpcode::Heartbeat, 1, vec![]).encode().unwrap();
    assert!(dispatch(&hb, peer, &reg, &mut world).unwrap().is_some());
    let packet = UdpPacket::new(UdpOpcode::PlayerPosition, 2, position(1.0, 1.0, 1.0, 0.0, 0.0).to_bytes())
        .encode()
        .unwrap();
    let before = world.snapshot().sequence;
    match dispatch(&packet, peer, &reg, &mut world) {
        Err(SunriseError::PayloadTooLarge { length, max }) => {
            assert_eq!(length, 2341);
            assert_eq!(max, 2340);
        }
        _ => panic!("expected PayloadTooLarge"),
    }
    assert_eq!(world.player_count(), 2341);
    assert_eq!(world.snapshot().sequence, before.wrapping_add(2));
}

#[test]
fn tcp_stream_splits_into_frames() {
    let mut bytes = BapFrame::new(1, Opcode::Signon, vec![1]).to_bytes().unwrap();
    bytes.extend(BapFrame::new(2, Opcode::QueueZ, vec![]).to_bytes().unwrap());
    bytes.extend_from_slice(&[0x42, 0x41]);
    let frames = decode_frames(&bytes);
    assert_eq!(frames.len(), 2);
    assert_eq!(frames[0].transaction_id, 1);
    assert_eq!(frames[1].opcode, Opcode::QueueZ);
    assert!(decode_frames(&[]).is_empty());
    assert_eq!(bind_address("127.0.0.1", 7777), "127.0.0.1:7777");
}
