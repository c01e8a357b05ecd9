//! UDP game-state packets: header codec, player positions and world snapshots.
use vstd::prelude::*;
use crate::text::{hex_padded, push_hex, string_push, string_push_str};
use crate::encoding::byte_order::{
    be32, get_u32_le, get_u64_le, le32, le64, put_bytes, u32_be_bytes, u32_le_bytes,
    u32_to_be_bytes, u32_to_le_bytes, u64_le_bytes, u64_to_le_bytes,
};
use crate::error::{Result, SunriseError};
use crate::protocol::bap_frame::slice_range_to_vec;
use crate::protocol::udp_magic::udp_magic;

verus! {

pub const UDP_HEADER_SIZE: usize = 12;

/// The largest UDP payload: 64 KiB.
pub const UDP_MAX_PAYLOAD: usize = 65536;

#[derive(Debug, Clone, Copy, PartialEq, Eq, Structural)]
pub enum UdpOpcode {
    Heartbeat,
    PlayerPosition,
    WorldSnapshot,
    BindAck,
    Unknown(u8),
}

pub open spec fn udp_opcode_from_code(v: u8) -> UdpOpcode {
    if v == 1 {
        UdpOpcode::Heartbeat
    } else if v == 2 {
        UdpOpcode::PlayerPosition
    } else if v == 3 {
        UdpOpcode::WorldSnapshot
    } else if v == 4 {
        UdpOpcode::BindAck
    } else {
        UdpOpcode::Unknown(v)
    }
}

pub open spec fn udp_opcode_code(op: UdpOpcode) -> u8 {
    match op {
        UdpOpcode::Heartbeat => 1,
        UdpOpcode::PlayerPosition => 2,
        UdpOpcode::WorldSnapshot => 3,
        UdpOpcode::BindAck => 4,
        UdpOpcode::Unknown(v) => v,
    }
}

/// A UDP opcode that decoding can produce.
pub open spec fn udp_opcode_is_canonical(op: UdpOpcode) -> bool {
    udp_opcode_from_code(udp_opcode_code(op)) == op
}

impl UdpOpcode {
    pub fn from_code(v: u8) -> (op: UdpOpcode)
        ensures
            op == udp_opcode_from_code(v),
    {
        match v {
            1 => UdpOpcode::Heartbeat,
            2 => UdpOpcode::PlayerPosition,
            3 => UdpOpcode::WorldSnapshot,
            4 => UdpOpcode::BindAck,
            other => UdpOpcode::Unknown(other),
        }
    }

    pub fn code(self) -> (v: u8)
        ensures
            v == udp_opcode_code(self),
    {
        match self {
            UdpOpcode::Heartbeat => 1,
            UdpOpcode::PlayerPosition => 2,
            UdpOpcode::WorldSnapshot => 3,
            UdpOpcode::BindAck => 4,
            UdpOpcode::Unknown(v) => v,
        }
    }
}

impl From<u8> for UdpOpcode {
    fn from(value: u8) -> (op: UdpOpcode) {
        UdpOpcode::from_code(value)
    }
}

impl vstd::std_specs::convert::FromSpecImpl<u8> for UdpOpcode {
    open spec fn obeys_from_spec() -> bool {
        true
    }

    open spec fn from_spec(v: u8) -> UdpOpcode {
        udp_opcode_from_code(v)
    }
}

impl From<UdpOpcode> for u8 {
    fn from(op: UdpOpcode) -> (v: u8) {
        op.code()
    }
}

impl vstd::std_specs::convert::FromSpecImpl<UdpOpcode> for u8 {
    open spec fn obeys_from_spec() -> bool {
        true
    }

    open spec fn from_spec(op: UdpOpcode) -> u8 {
        udp_opcode_code(op)
    }
}

/// The name a UDP opcode is shown by.
pub open spec fn udp_opcode_name(op: UdpOpcode) -> Seq<char> {
    match op {
        UdpOpcode::Heartbeat => "Heartbeat"@,
        UdpOpcode::PlayerPosition => "PlayerPosition"@,
        UdpOpcode::WorldSnapshot => "WorldSnapshot"@,
        UdpOpcode::BindAck => "BindAck"@,
        UdpOpcode::Unknown(_) => "UnknownUdp"@,
    }
}

/// How a UDP opcode is shown: its name and its code as two upper-case
/// hexadecimal digits, for example `Heartbeat (0x01)`.
pub open spec fn udp_opcode_label(op: UdpOpcode) -> Seq<char> {
    udp_opcode_name(op) + " (0x"@ + hex_padded(udp_opcode_code(op) as nat, 2, true) + ")"@
}

impl UdpOpcode {
    fn name(self) -> (s: &'static str)
        ensures
            s@ == udp_opcode_name(self),
    {
        match self {
            UdpOpcode::Heartbeat => "Heartbeat",
            UdpOpcode::PlayerPosition => "PlayerPosition",
            UdpOpcode::WorldSnapshot => "WorldSnapshot",
            UdpOpcode::BindAck => "BindAck",
            UdpOpcode::Unknown(_) => "UnknownUdp",
        }
    }

    /// The opcode as shown to people.
    pub fn to_string(&self) -> (s: String)
        ensures
            s@ == udp_opcode_label(*self),
    {
        let mut s = self.name().to_owned();
        string_push_str(&mut s, " (0x");
        push_hex(&mut s, self.code() as u64, 2, true);
        string_push(&mut s, ')');
        proof {
            assert(")"@ =~= seq![')']) by {
                reveal_strlit(")");
            }
        }
        s
    }
}

/// A player's position and view angles. Each field holds the IEEE-754 bit
/// pattern of the `f32` the client sent; the codec moves the patterns unchanged.
#[derive(Debug, Clone, Copy, PartialEq, Eq, Structural)]
pub struct PlayerPosition {
    pub x: u32,
    pub y: u32,
    pub z: u32,
    pub yaw: u32,
    pub pitch: u32,
}

/// The wire form of a position: the five patterns, little-endian.
pub open spec fn position_bytes(p: PlayerPosition) -> Seq<u8> {
    u32_le_bytes(p.x) + u32_le_bytes(p.y) + u32_le_bytes(p.z) + u32_le_bytes(p.yaw) + u32_le_bytes(p.pitch)
}

/// The position held by the first twenty bytes of `s`.
pub open spec fn position_from_bytes(s: Seq<u8>) -> PlayerPosition {
    PlayerPosition {
        x: le32(s.subrange(0, 4)),
        y: le32(s.subrange(4, 8)),
        z: le32(s.subrange(8, 12)),
        yaw: le32(s.subrange(12, 16)),
        pitch: le32(s.subrange(16, 20)),
    }
}

/// Reading back the wire form of a position gives the position.
pub proof fn lemma_position_roundtrip(p: PlayerPosition, rest: Seq<u8>)
    ensures
        position_bytes(p).len() == 20,
        position_from_bytes(position_bytes(p) + rest) == p,
{
    let s = position_bytes(p) + rest;
    crate::encoding::byte_order::lemma_le32_roundtrip(p.x);
    crate::encoding::byte_order::lemma_le32_roundtrip(p.y);
    crate::encoding::byte_order::lemma_le32_roundtrip(p.z);
    crate::encoding::byte_order::lemma_le32_roundtrip(p.yaw);
    crate::encoding::byte_order::lemma_le32_roundtrip(p.pitch);
    assert(s.subrange(0, 4) =~= u32_le_bytes(p.x));
    assert(s.subrange(4, 8) =~= u32_le_bytes(p.y));
    assert(s.subrange(8, 12) =~= u32_le_bytes(p.z));
    assert(s.subrange(12, 16) =~= u32_le_bytes(p.yaw));
    assert(s.subrange(16, 20) =~= u32_le_bytes(p.pitch));
}

/// The wire layout of a position: x, y, z, yaw and pitch, in that order, each
/// as four little-endian bytes; reading twenty bytes takes the fields from the
/// same places.
pub proof fn lemma_position_layout(p: PlayerPosition, s: Seq<u8>)
    requires
        s.len() >= 20,
    ensures
        position_bytes(p).len() == 20,
        position_bytes(p).subrange(0, 4) == u32_le_bytes(p.x),
        position_bytes(p).subrange(4, 8) == u32_le_bytes(p.y),
        position_bytes(p).subrange(8, 12) == u32_le_bytes(p.z),
        position_bytes(p).subrange(12, 16) == u32_le_bytes(p.yaw),
        position_bytes(p).subrange(16, 20) == u32_le_bytes(p.pitch),
        position_from_bytes(s).x == le32(s.subrange(0, 4)),
        position_from_bytes(s).y == le32(s.subrange(4, 8)),
        position_from_bytes(s).z == le32(s.subrange(8, 12)),
        position_from_bytes(s).yaw == le32(s.subrange(12, 16)),
        position_from_bytes(s).pitch == le32(s.subrange(16, 20)),
{
    let b = position_bytes(p);
    assert(b.subrange(0, 4) =~= u32_le_bytes(p.x));
    assert(b.subrange(4, 8) =~= u32_le_bytes(p.y));
    assert(b.subrange(8, 12) =~= u32_le_bytes(p.z));
    assert(b.subrange(12, 16) =~= u32_le_bytes(p.yaw));
    assert(b.subrange(16, 20) =~= u32_le_bytes(p.pitch));
}

impl PlayerPosition {
    pub const WIRE_SIZE: usize = 20;

    pub fn encode(&self, target: &mut [u8]) -> (r: Result<usize>)
        ensures
            final(target)@.len() == old(target)@.len(),
            old(target)@.len() < 20 ==> (r matches Err(SunriseError::BufferTooShort { needed, available })
                && needed == 20 && available == old(target)@.len() && final(target)@ == old(target)@),
            old(target)@.len() >= 20 ==> (r matches Ok(n) && n == 20 && final(target)@ == position_bytes(*self)
                + old(target)@.skip(20)),
            old(target)@.len() >= 20 ==> final(target)@.subrange(12, 16) == u32_le_bytes(self.yaw)
                && final(target)@.subrange(16, 20) == u32_le_bytes(self.pitch),
    {
        if target.len() < Self::WIRE_SIZE {
            return Err(SunriseError::BufferTooShort { needed: Self::WIRE_SIZE, available: target.len() });
        }
        let ghost orig = target@;
        put_bytes(target, 0, &u32_to_le_bytes(self.x));
        put_bytes(target, 4, &u32_to_le_bytes(self.y));
        put_bytes(target, 8, &u32_to_le_bytes(self.z));
        put_bytes(target, 12, &u32_to_le_bytes(self.yaw));
        put_bytes(target, 16, &u32_to_le_bytes(self.pitch));
        proof {
            assert(target@ =~= position_bytes(*self) + orig.skip(20));
            assert(target@.subrange(12, 16) =~= u32_le_bytes(self.yaw));
            assert(target@.subrange(16, 20) =~= u32_le_bytes(self.pitch));
        }
        Ok(Self::WIRE_SIZE)
    }

    pub fn decode(source: &[u8]) -> (r: Result<Self>)
        ensures
            source@.len() < 20 ==> (r matches Err(SunriseError::BufferTooShort { needed, available }) && needed
                == 20 && available == source@.len()),
            source@.len() >= 20 ==> r == Ok::<PlayerPosition, SunriseError>(position_from_bytes(source@)),
            source@.len() >= 20 ==> (r matches Ok(p) && p.x == le32(source@.subrange(0, 4)) && p.y == le32(
                source@.subrange(4, 8),
            ) && p.z == le32(source@.subrange(8, 12)) && p.yaw == le32(source@.subrange(12, 16)) && p.pitch
                == le32(source@.subrange(16, 20))),
    {
        if source.len() < Self::WIRE_SIZE {
            return Err(SunriseError::BufferTooShort { needed: Self::WIRE_SIZE, available: source.len() });
        }
        proof {
            lemma_position_layout(PlayerPosition { x: 0, y: 0, z: 0, yaw: 0, pitch: 0 }, source@);
        }
        Ok(Self::decode_at(source, 0))
    }

    /// The position whose wire form starts at `off`.
    fn decode_at(source: &[u8], off: usize) -> (p: Self)
        requires
            off + 20 <= source@.len(),
        ensures
            p == position_from_bytes(source@.subrange(off as int, off + 20)),
    {
        let _ = source.len();
        let ghost s = source@.subrange(off as int, off + 20);
        assert(s.subrange(0, 4) =~= source@.subrange(off as int, off + 4));
        assert(s.subrange(4, 8) =~= source@.subrange(off + 4, off + 8));
        assert(s.subrange(8, 12) =~= source@.subrange(off + 8, off + 12));
        assert(s.subrange(12, 16) =~= source@.subrange(off + 12, off + 16));
        assert(s.subrange(16, 20) =~= source@.subrange(off + 16, off + 20));
        PlayerPosition {
            x: get_u32_le(source, off),
            y: get_u32_le(source, off + 4),
            z: get_u32_le(source, off + 8),
            yaw: get_u32_le(source, off + 12),
            pitch: get_u32_le(source, off + 16),
        }
    }

    pub fn to_bytes(&self) -> (v: Vec<u8>)
        ensures
            v@ == position_bytes(*self),
            v@.len() == 20,
            v@.subrange(0, 4) == u32_le_bytes(self.x),
            v@.subrange(4, 8) == u32_le_bytes(self.y),
            v@.subrange(8, 12) == u32_le_bytes(self.z),
            v@.subrange(12, 16) == u32_le_bytes(self.yaw),
            v@.subrange(16, 20) == u32_le_bytes(self.pitch),
    {
        let mut out = vec![0u8; 20];
        let _ = self.encode(out.as_mut_slice());
        proof {
            assert(out@ =~= position_bytes(*self));
            lemma_position_layout(*self, out@);
        }
        out
    }
}

/// Writes the wire form of `p` at `off`.
fn put_position(target: &mut [u8], off: usize, p: &PlayerPosition)
    requires
        off + 20 <= old(target)@.len(),
    ensures
        final(target)@ == old(target)@.subrange(0, off as int) + position_bytes(*p) + old(target)@.subrange(
            off + 20,
            old(target)@.len() as int,
        ),
{
    let _ = target.len();
    let ghost orig = target@;
    let ghost len = orig.len();
    put_bytes(target, off, &u32_to_le_bytes(p.x));
    put_bytes(target, off + 4, &u32_to_le_bytes(p.y));
    put_bytes(target, off + 8, &u32_to_le_bytes(p.z));
    put_bytes(target, off + 12, &u32_to_le_bytes(p.yaw));
    put_bytes(target, off + 16, &u32_to_le_bytes(p.pitch));
    proof {
        assert(target@ =~= orig.subrange(0, off as int) + position_bytes(*p) + orig.subrange(off + 20, len as int));
    }
}

/// Bytes taken by one player in a snapshot: an 8-byte id and a position.
pub const SNAPSHOT_ENTRY_SIZE: usize = 28;

/// The most players a snapshot can carry within `UDP_MAX_PAYLOAD`.
pub const SNAPSHOT_MAX_PLAYERS: usize = 2340;

/// The wire form of one snapshot entry: the id little-endian, then the position.
pub open spec fn snapshot_entry_bytes(e: (u64, PlayerPosition)) -> Seq<u8> {
    u64_le_bytes(e.0) + position_bytes(e.1)
}

/// The entry held at index `i` of the snapshot whose wire form is `b`.
pub open spec fn snapshot_entry_at(b: Seq<u8>, i: int) -> (u64, PlayerPosition) {
    (le64(b.subrange(8 + 28 * i, 16 + 28 * i)), position_from_bytes(b.subrange(16 + 28 * i, 36 + 28 * i)))
}

/// The bytes a snapshot of `count` players takes.
pub open spec fn snapshot_size(count: int) -> int {
    8 + 28 * count
}

/// `b` starts with the wire form of a snapshot: the sequence number and the
/// player count little-endian, then each entry in order.
pub open spec fn snapshot_wire(sequence: u32, players: Seq<(u64, PlayerPosition)>, b: Seq<u8>) -> bool {
    &&& b.len() >= snapshot_size(players.len() as int)
    &&& players.len() <= u32::MAX
    &&& b.subrange(0, 4) == u32_le_bytes(sequence)
    &&& b.subrange(4, 8) == u32_le_bytes(players.len() as u32)
    &&& snapshot_entries_written(b, players, players.len() as int)
}

/// The first `n` entries of `players` stand in `b` at their places.
#[verifier::opaque]
pub open spec fn snapshot_entries_written(b: Seq<u8>, players: Seq<(u64, PlayerPosition)>, n: int) -> bool {
    forall|j: int|
        0 <= j < n ==> #[trigger] b.subrange(8 + 28 * j, 36 + 28 * j) == snapshot_entry_bytes(players[j])
}

/// The players held by a snapshot wire form that declares `count` of them.
pub open spec fn snapshot_players(b: Seq<u8>, count: nat) -> Seq<(u64, PlayerPosition)> {
    Seq::new(count, |i: int| snapshot_entry_at(b, i))
}

/// Decoding the wire form of a snapshot gives back its sequence number and players.
pub proof fn lemma_snapshot_roundtrip(sequence: u32, players: Seq<(u64, PlayerPosition)>, b: Seq<u8>)
    requires
        snapshot_wire(sequence, players, b),
    ensures
        le32(b.subrange(0, 4)) == sequence,
        le32(b.subrange(4, 8)) == players.len(),
        snapshot_players(b, players.len()) == players,
{
    crate::encoding::byte_order::lemma_le32_roundtrip(sequence);
    crate::encoding::byte_order::lemma_le32_roundtrip(players.len() as u32);
    reveal(snapshot_entries_written);
    assert forall|j: int| 0 <= j < players.len() implies snapshot_entry_at(b, j) == players[j] by {
        let e = players[j];
        let w = b.subrange(8 + 28 * j, 36 + 28 * j);
        assert(w == snapshot_entry_bytes(e));
        assert(b.subrange(8 + 28 * j, 16 + 28 * j) =~= w.subrange(0, 8));
        assert(w.subrange(0, 8) =~= u64_le_bytes(e.0));
        crate::encoding::byte_order::lemma_le64_roundtrip(e.0);
        assert(b.subrange(16 + 28 * j, 36 + 28 * j) =~= w.subrange(8, 28));
        assert(w.subrange(8, 28) =~= position_bytes(e.1) + Seq::<u8>::empty());
        lemma_position_roundtrip(e.1, Seq::<u8>::empty());
    }
    assert(snapshot_players(b, players.len()) =~= players);
}

/// Writing entry `i` over `before` keeps the header, the entries before it and
/// what follows it.
proof fn lemma_snapshot_entry_step(
    orig: Seq<u8>,
    before: Seq<u8>,
    after: Seq<u8>,
    players: Seq<(u64, PlayerPosition)>,
    i: int,
)
    requires
        0 <= i < players.len(),
        8 + 28 * players.len() <= before.len(),
        before.len() == orig.len(),
        after == before.subrange(0, 8 + 28 * i) + snapshot_entry_bytes(players[i]) + before.subrange(
            36 + 28 * i,
            before.len() as int,
        ),
        snapshot_entries_written(before, players, i),
        before.subrange(8 + 28 * i, before.len() as int) == orig.subrange(8 + 28 * i, orig.len() as int),
    ensures
        after.len() == before.len(),
        after.subrange(0, 4) == before.subrange(0, 4),
        after.subrange(4, 8) == before.subrange(4, 8),
        snapshot_entries_written(after, players, i + 1),
        after.subrange(36 + 28 * i, after.len() as int) == orig.subrange(36 + 28 * i, orig.len() as int),
{
    reveal(snapshot_entries_written);
    let len = before.len() as int;
    let off = 8 + 28 * i;
    assert(snapshot_entry_bytes(players[i]).len() == 28);
    assert(after.subrange(0, 4) =~= before.subrange(0, 4));
    assert(after.subrange(4, 8) =~= before.subrange(4, 8));
    assert forall|j: int| 0 <= j < i + 1 implies #[trigger] after.subrange(8 + 28 * j, 36 + 28 * j)
        == snapshot_entry_bytes(players[j]) by {
        if j < i {
            assert(after.subrange(8 + 28 * j, 36 + 28 * j) =~= before.subrange(8 + 28 * j, 36 + 28 * j));
        } else {
            assert(after.subrange(8 + 28 * j, 36 + 28 * j) =~= snapshot_entry_bytes(players[j]));
        }
    }
    assert(after.subrange(off + 28, len) =~= before.subrange(off, len).subrange(28, len - off));
    assert(orig.subrange(off + 28, len) =~= orig.subrange(off, len).subrange(28, len - off));
}

/// The positions of every player at one tick.
#[derive(Debug, Clone, PartialEq)]
pub struct WorldSnapshot {
    pub sequence: u32,
    pub players: Vec<(u64, PlayerPosition)>,
}

impl WorldSnapshot {
    /// Writes the snapshot at the start of `target` and returns the bytes written.
    pub fn encode(&self, target: &mut [u8]) -> (r: Result<usize>)
        ensures
            final(target)@.len() == old(target)@.len(),
            self.players@.len() > 2340 ==> (r matches Err(SunriseError::PayloadTooLarge { length, max })
                && length == self.players@.len() && max == 2340 && final(target)@ == old(target)@),
            self.players@.len() <= 2340 && old(target)@.len() < snapshot_size(self.players@.len() as int) ==> (
            r matches Err(SunriseError::BufferTooShort { needed, available }) && needed == snapshot_size(
                self.players@.len() as int,
            ) && available == old(target)@.len() && final(target)@ == old(target)@),
            self.players@.len() <= 2340 && old(target)@.len() >= snapshot_size(self.players@.len() as int) ==> (
            r matches Ok(n) && n == snapshot_size(self.players@.len() as int) && snapshot_wire(
                self.sequence,
                self.players@,
                final(target)@,
            ) && final(target)@.skip(n as int) == old(target)@.skip(n as int)),
    {
        let count = self.players.len();
        if count > SNAPSHOT_MAX_PLAYERS {
            return Err(SunriseError::PayloadTooLarge { length: count, max: SNAPSHOT_MAX_PLAYERS });
        }
        let needed = 8 + count * SNAPSHOT_ENTRY_SIZE;
        if target.len() < needed {
            return Err(SunriseError::BufferTooShort { needed, available: target.len() });
        }
        let ghost orig = target@;
        let ghost len = orig.len();
        put_bytes(target, 0, &u32_to_le_bytes(self.sequence));
        put_bytes(target, 4, &u32_to_le_bytes(count as u32));
        assert(target@.subrange(0, 4) =~= u32_le_bytes(self.sequence));
        assert(target@.subrange(4, 8) =~= u32_le_bytes(count as u32));
        let mut i: usize = 0;
        let mut off: usize = 8;
        assert(snapshot_entries_written(target@, self.players@, 0)) by {
            reveal(snapshot_entries_written);
        }
        while i < count
            invariant
                count == self.players@.len(),
                count <= 2340,
                needed == 8 + 28 * count,
                needed <= target@.len(),
                target@.len() == len,
                orig.len() == len,
                i <= count,
                off == 8 + 28 * i,
                target@.subrange(0, 4) == u32_le_bytes(self.sequence),
                target@.subrange(4, 8) == u32_le_bytes(count as u32),
                snapshot_entries_written(target@, self.players@, i as int),
                target@.subrange(off as int, len as int) == orig.subrange(off as int, len as int),
            decreases count - i,
        {
            let ghost before = target@;
            let entry = &self.players[i];
            put_bytes(target, off, &u64_to_le_bytes(entry.0));
            let ghost mid = target@;
            put_position(target, off + 8, &entry.1);
            proof {
                assert(mid.subrange(0, off + 8) =~= before.subrange(0, off as int) + u64_le_bytes(entry.0));
                assert(mid.subrange(off + 28, len as int) =~= before.subrange(off + 28, len as int));
                assert(target@ =~= before.subrange(0, off as int) + snapshot_entry_bytes(self.players@[i as int])
                    + before.subrange(off + 28, len as int));
                lemma_snapshot_entry_step(orig, before, target@, self.players@, i as int);
            }
            i += 1;
            off += 28;
        }
        proof {
            assert(target@.skip(needed as int) =~= orig.skip(needed as int));
        }
        Ok(needed)
    }

    /// Reads a snapshot from the start of `source`.
    pub fn decode(source: &[u8]) -> (r: Result<WorldSnapshot>)
        ensures
            source@.len() < 8 ==> (r matches Err(SunriseError::BufferTooShort { needed, available }) && needed
                == 8 && available == source@.len()),
            source@.len() >= 8 && le32(source@.subrange(4, 8)) > 2340 ==> (r matches Err(
                SunriseError::PayloadTooLarge { length, max },
            ) && length == le32(source@.subrange(4, 8)) && max == 2340),
            source@.len() >= 8 && le32(source@.subrange(4, 8)) <= 2340 && source@.len() < snapshot_size(
                le32(source@.subrange(4, 8)) as int,
            ) ==> (r matches Err(SunriseError::BufferTooShort { needed, available }) && needed == snapshot_size(
                le32(source@.subrange(4, 8)) as int,
            ) && available == source@.len()),
            source@.len() >= 8 && le32(source@.subrange(4, 8)) <= 2340 && source@.len() >= snapshot_size(
                le32(source@.subrange(4, 8)) as int,
            ) ==> (r matches Ok(s) && s.sequence == le32(source@.subrange(0, 4)) && s.players@ == snapshot_players(
                source@,
                le32(source@.subrange(4, 8)) as nat,
            )),
    {
        let len = source.len();
        if len < 8 {
            return Err(SunriseError::BufferTooShort { needed: 8, available: len });
        }
        let sequence = get_u32_le(source, 0);
        let count = get_u32_le(source, 4) as usize;
        if count > SNAPSHOT_MAX_PLAYERS {
            return Err(SunriseError::PayloadTooLarge { length: count, max: SNAPSHOT_MAX_PLAYERS });
        }
        let needed = 8 + count * SNAPSHOT_ENTRY_SIZE;
        if len < needed {
            return Err(SunriseError::BufferTooShort { needed, available: len });
        }
        let mut players: Vec<(u64, PlayerPosition)> = Vec::new();
        let mut i: usize = 0;
        let mut off: usize = 8;
        while i < count
            invariant
                count <= 2340,
                len == source@.len(),
                8 + 28 * count <= len,
                i <= count,
                off == 8 + 28 * i,
                players@ == snapshot_players(source@, i as nat),
            decreases count - i,
        {
            let id = get_u64_le(source, off);
            let pos = PlayerPosition::decode_at(source, off + 8);
            players.push((id, pos));
            proof {
                assert(players@ =~= snapshot_players(source@, (i + 1) as nat));
            }
            i += 1;
            off += 28;
        }
        Ok(WorldSnapshot { sequence, players })
    }
}

/// The wire form of a UDP packet: magic, opcode byte, three zero bytes, the
/// sequence number big-endian, then the payload.
pub open spec fn udp_packet_bytes(opcode: UdpOpcode, sequence: u32, payload: Seq<u8>) -> Seq<u8> {
    udp_magic() + seq![udp_opcode_code(opcode), 0u8, 0u8, 0u8] + u32_be_bytes(sequence) + payload
}

/// One datagram of the game-state channel.
#[derive(Debug, Clone)]
pub struct UdpPacket {
    pub opcode: UdpOpcode,
    pub sequence: u32,
    pub payload: Vec<u8>,
}

/// Decoding the wire form of a packet gives back its opcode, sequence number
/// and payload, provided the opcode is one decoding produces.
pub proof fn lemma_udp_packet_roundtrip(opcode: UdpOpcode, sequence: u32, payload: Seq<u8>)
    requires
        udp_opcode_is_canonical(opcode),
    ensures
        ({
            let b = udp_packet_bytes(opcode, sequence, payload);
            &&& b.len() == 12 + payload.len()
            &&& b.subrange(0, 4) == udp_magic()
            &&& udp_opcode_from_code(b[4]) == opcode
            &&& be32(b.subrange(8, 12)) == sequence
            &&& b.skip(12) == payload
        }),
{
    let b = udp_packet_bytes(opcode, sequence, payload);
    crate::encoding::byte_order::lemma_be32_roundtrip(sequence);
    assert(b.subrange(0, 4) =~= udp_magic());
    assert(b.subrange(8, 12) =~= u32_be_bytes(sequence));
    assert(b.skip(12) =~= payload);
}

impl UdpPacket {
    pub fn new(opcode: UdpOpcode, sequence: u32, payload: Vec<u8>) -> (p: Self)
        ensures
            p.opcode == opcode,
            p.sequence == sequence,
            p.payload == payload,
    {
        UdpPacket { opcode, sequence, payload }
    }

    /// The wire form of this packet.
    pub open spec fn wire(&self) -> Seq<u8> {
        udp_packet_bytes(self.opcode, self.sequence, self.payload@)
    }

    pub fn encoded_size(&self) -> (n: usize)
        requires
            self.payload@.len() + 12 <= usize::MAX,
        ensures
            n == 12 + self.payload@.len(),
    {
        UDP_HEADER_SIZE + self.payload.len()
    }

    pub fn encode(&self) -> (r: Result<Vec<u8>>)
        ensures
            self.payload@.len() > 65536 ==> (r matches Err(SunriseError::PayloadTooLarge { length, max }) && length
                == self.payload@.len() && max == 65536),
            self.payload@.len() <= 65536 ==> (r matches Ok(v) && v@ == self.wire()),
    {
        if self.payload.len() > UDP_MAX_PAYLOAD {
            return Err(SunriseError::PayloadTooLarge { length: self.payload.len(), max: UDP_MAX_PAYLOAD });
        }
        let mut buf: Vec<u8> = Vec::new();
        buf.push(0x53);
        buf.push(0x55);
        buf.push(0x4E);
        buf.push(0x55);
        buf.push(self.opcode.code());
        buf.push(0);
        buf.push(0);
        buf.push(0);
        let seq_bytes = u32_to_be_bytes(self.sequence);
        buf.push(seq_bytes[0]);
        buf.push(seq_bytes[1]);
        buf.push(seq_bytes[2]);
        buf.push(seq_bytes[3]);
        let ghost header = buf@;
        assert(header =~= udp_magic() + seq![udp_opcode_code(self.opcode), 0u8, 0u8, 0u8] + u32_be_bytes(
            self.sequence,
        ));
        let mut i: usize = 0;
        while i < self.payload.len()
            invariant
                i <= self.payload@.len(),
                buf@ == header + self.payload@.subrange(0, i as int),
            decreases self.payload@.len() - i,
        {
            buf.push(self.payload[i]);
            i += 1;
            proof {
                assert(buf@ =~= header + self.payload@.subrange(0, i as int));
            }
        }
        proof {
            assert(self.payload@.subrange(0, i as int) =~= self.payload@);
        }
        Ok(buf)
    }

    /// The wire form, or nothing when the payload is too large to send.
    pub fn to_bytes(&self) -> (v: Vec<u8>)
        ensures
            self.payload@.len() <= 65536 ==> v@ == self.wire(),
            self.payload@.len() > 65536 ==> v@.len() == 0,
    {
        match self.encode() {
            Ok(v) => v,
            Err(_) => Vec::new(),
        }
    }

    pub fn decode(buf: &[u8]) -> (r: Result<UdpPacket>)
        ensures
            buf@.len() < 12 ==> (r matches Err(SunriseError::BufferTooShort { needed, available }) && needed == 12
                && available == buf@.len()),
            buf@.len() >= 12 && buf@.subrange(0, 4) != udp_magic() ==> (r matches Err(
                SunriseError::InvalidMagicNumber(got),
            ) && got@ == buf@.subrange(0, 4)),
            buf@.len() >= 12 && buf@.subrange(0, 4) == udp_magic() ==> (r matches Ok(p) && p.opcode
                == udp_opcode_from_code(buf@[4]) && p.sequence == be32(buf@.subrange(8, 12)) && p.payload@
                == buf@.skip(12)),
    {
        let len = buf.len();
        if len < UDP_HEADER_SIZE {
            return Err(SunriseError::BufferTooShort { needed: UDP_HEADER_SIZE, available: len });
        }
        if buf[0] != 0x53 || buf[1] != 0x55 || buf[2] != 0x4E || buf[3] != 0x55 {
            let got = [buf[0], buf[1], buf[2], buf[3]];
            proof {
                assert(got@ =~= buf@.subrange(0, 4));
            }
            return Err(SunriseError::InvalidMagicNumber(got));
        }
        proof {
            assert(buf@.subrange(0, 4) =~= udp_magic());
        }
        let opcode = UdpOpcode::from_code(buf[4]);
        let sequence = (buf[8] as u32) * 0x1000000 + (buf[9] as u32) * 0x10000 + (buf[10] as u32) * 0x100
            + buf[11] as u32;
        let payload = slice_range_to_vec(buf, 12, len);
        proof {
            assert(buf@.skip(12) =~= buf@.subrange(12, len as int));
        }
        Ok(UdpPacket { opcode, sequence, payload })
    }
}

} // verus!
