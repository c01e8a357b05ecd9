//! What the UDP game-state listener does with one datagram: answer a
//! heartbeat, or record a player's position and answer with a snapshot of
//! the world.
use vstd::prelude::*;
use crate::error::{Result, SunriseError};
use crate::protocol::udp_packet::{
    position_from_bytes, snapshot_size, snapshot_wire, udp_opcode_from_code, udp_packet_bytes, PlayerPosition,
    UdpOpcode, UdpPacket, WorldSnapshot, SNAPSHOT_MAX_PLAYERS, UDP_HEADER_SIZE,
};
use crate::protocol::udp_magic::udp_magic;
use crate::encoding::byte_order::be32;
use crate::server::client_registry::ClientRegistry;
use crate::server::udp_bindings::PeerAddr;
use crate::server::world_state::WorldState;

verus! {

/// The position in the first twenty bytes of a position packet's payload.
pub fn decode_player_position(payload: &[u8]) -> (r: Option<PlayerPosition>)
    ensures
        payload@.len() < 20 ==> r is None,
        payload@.len() >= 20 ==> r == Some(position_from_bytes(payload@)),
{
    match PlayerPosition::decode(payload) {
        Ok(p) => Some(p),
        Err(_) => None,
    }
}

/// The payload of a snapshot packet: the wire form of the snapshot.
pub fn encode_snapshot_payload(snap: &WorldSnapshot) -> (out: Vec<u8>)
    requires
        snap.players@.len() <= 2340,
    ensures
        out@.len() == snapshot_size(snap.players@.len() as int),
        snapshot_wire(snap.sequence, snap.players@, out@),
{
    let needed = 8 + snap.players.len() * 28;
    let mut out = vec![0u8; needed];
    let r = snap.encode(out.as_mut_slice());
    out
}

/// `bytes` is a snapshot packet numbered `sequence` holding each player of
/// `positions` once, in some order.
pub open spec fn is_snapshot_packet(bytes: Seq<u8>, sequence: u32, positions: Map<u64, PlayerPosition>) -> bool {
    exists|s: WorldSnapshot, payload: Seq<u8>|
        #![trigger udp_packet_bytes(UdpOpcode::WorldSnapshot, s.sequence, payload)]
        s.sequence == sequence && s.players@.len() == positions.dom().len() && s.players@.to_set()
            == positions.kv_pairs() && payload.len() == snapshot_size(s.players@.len() as int) && snapshot_wire(
            s.sequence,
            s.players@,
            payload,
        ) && bytes == udp_packet_bytes(UdpOpcode::WorldSnapshot, s.sequence, payload)
}

/// Takes the next snapshot of `world` and frames it as a snapshot packet
/// numbered with the snapshot's sequence number.
pub fn build_snapshot_bytes(world: &mut WorldState) -> (r: Result<Vec<u8>>)
    requires
        old(world).positions().dom().len() <= 2340,
    ensures
        final(world).positions() == old(world).positions(),
        final(world).last_sequence() == vstd::wrapping::u32_specs::wrapping_add(old(world).last_sequence(), 1),
        r matches Ok(bytes) && is_snapshot_packet(bytes@, final(world).last_sequence(), old(world).positions()),
{
    let snap = world.snapshot();
    let payload = encode_snapshot_payload(&snap);
    let ghost pv = payload@;
    let packet = UdpPacket::new(UdpOpcode::WorldSnapshot, snap.sequence, payload);
    let r = packet.encode();
    proof {
        assert(udp_packet_bytes(UdpOpcode::WorldSnapshot, snap.sequence, pv) == packet.wire());
    }
    r
}

/// What the listener sends back for a datagram from `peer`, if anything: the
/// echo of a heartbeat, or, for a position from a known client, a snapshot
/// taken after recording that position. Anything else is ignored. A snapshot
/// of more players than a packet can carry is reported as `PayloadTooLarge`
/// (after the position is recorded and the snapshot numbered).
pub fn dispatch(data: &[u8], peer: PeerAddr, registry: &ClientRegistry, world: &mut WorldState) -> (r: Result<
    Option<Vec<u8>>,
>)
    requires
        registry.wf(),
    ensures
        ({
            let ok = data@.len() >= 12 && data@.subrange(0, 4) == udp_magic();
            let op = udp_opcode_from_code(data@[4]);
            let seq = be32(data@.subrange(8, 12));
            let payload = data@.skip(12);
            let owner = registry.udp_owner(peer);
            let known = owner is Some && registry.clients().contains_key(owner.unwrap());
            if ok && op == UdpOpcode::Heartbeat {
                &&& r matches Ok(Some(b)) && b@ == udp_packet_bytes(UdpOpcode::Heartbeat, seq, Seq::<u8>::empty())
                &&& *final(world) == *old(world)
            } else if ok && op == UdpOpcode::PlayerPosition && payload.len() >= 20 && known {
                &&& final(world).positions() == old(world).positions().insert(
                    registry.clients()[owner.unwrap()].membership_id,
                    position_from_bytes(payload),
                )
                &&& final(world).last_sequence() == vstd::wrapping::u32_specs::wrapping_add(
                    old(world).last_sequence(),
                    1,
                )
                &&& final(world).positions().dom().len() <= 2340 ==> (r matches Ok(Some(b)) && is_snapshot_packet(
                    b@,
                    final(world).last_sequence(),
                    final(world).positions(),
                ))
                &&& final(world).positions().dom().len() > 2340 ==> (r matches Err(
                    SunriseError::PayloadTooLarge { length, max },
                ) && length == final(world).positions().dom().len() && max == 2340)
            } else {
                &&& r matches Ok(None)
                &&& *final(world) == *old(world)
            }
        }),
{
    if data.len() < UDP_HEADER_SIZE {
        return Ok(None);
    }
    let packet = match UdpPacket::decode(data) {
        Ok(p) => p,
        Err(_) => {
            return Ok(None);
        },
    };
    match packet.opcode {
        UdpOpcode::Heartbeat => {
            let resp = UdpPacket::new(UdpOpcode::Heartbeat, packet.sequence, Vec::new());
            match resp.encode() {
                Ok(bytes) => Ok(Some(bytes)),
                Err(_) => Ok(None),
            }
        },
        UdpOpcode::PlayerPosition => {
            let pos = match decode_player_position(packet.payload.as_slice()) {
                Some(p) => p,
                None => {
                    return Ok(None);
                },
            };
            match registry.lookup_by_udp(peer) {
                Some(handle) => {
                    world.update_position(handle.membership_id, pos);
                    let count = world.player_count();
                    if count > SNAPSHOT_MAX_PLAYERS {
                        let _ = world.snapshot();
                        return Err(SunriseError::PayloadTooLarge { length: count, max: SNAPSHOT_MAX_PLAYERS });
                    }
                    match build_snapshot_bytes(world) {
                        Ok(bytes) => Ok(Some(bytes)),
                        Err(_) => Ok(None),
                    }
                },
                None => Ok(None),
            }
        },
        _ => Ok(None),
    }
}

} // verus!
