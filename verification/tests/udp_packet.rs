use thanatonaut::error::SunriseError;
use thanatonaut::protocol::udp_magic::UDP_MAGIC;
use thanatonaut::protocol::udp_packet::{
    PlayerPosition, UdpOpcode, UdpPacket, WorldSnapshot, UDP_HEADER_SIZE, UDP_MAX_PAYLOAD,
};
use thanatonaut::encoding::byte_order::read_u32_le;

fn pos(x: f32, y: f32, z: f32) -> PlayerPosition {
    PlayerPosition { x: x.to_bits(), y: y.to_bits(), z: z.to_bits(), yaw: 0.0f32.to_bits(), pitch: 0.0f32.to_bits() }
}

#[test]
fn magic_roundtrip() {
    let pkt = UdpPacket { opcode: UdpOpcode::Heartbeat, sequence: 0xDEADBEEF, payload: Vec::new() };
    let encoded = pkt.encode().expect("encode");
    assert_eq!(encoded.len(), UDP_HEADER_SIZE);
    assert_eq!(&encoded[..4], &UDP_MAGIC);
    let decoded = UdpPacket::decode(&encoded).expect("decode");
    assert_eq!(decoded.opcode, pkt.opcode);
    assert_eq!(decoded.sequence, pkt.sequence);
    assert_eq!(decoded.payload, pkt.payload);
}

#[test]
fn player_position_payload_size() {
    let p = PlayerPosition {
        x: 1.0f32.to_bits(),
        y: 2.0f32.to_bits(),
        z: 3.0f32.to_bits(),
        yaw: 0.5f32.to_bits(),
        pitch: (-0.25f32).to_bits(),
    };
    let mut buf = vec![0u8; PlayerPosition::WIRE_SIZE];
    let written = p.encode(&mut buf).expect("encode");
    assert_eq!(written, 20);
    let decoded = PlayerPosition::decode(&buf).expect("decode");
    assert_eq!(decoded, p);
}

#[test]
fn world_snapshot_encode_decode() {
    let snap = WorldSnapshot {
        sequence: 99,
        players: vec![
            (0x0102030405060708, pos(1.0, 2.0, 3.0)),
            (0x1112131415161718, pos(-4.0, 5.0, 6.0)),
            (0xDEADBEEFCAFEBABE, pos(7.5, -8.25, 9.125)),
        ],
    };
    let mut buf = vec![0u8; 4096];
    let written = snap.encode(&mut buf).expect("encode");
    assert_eq!(written, 8 + 3 * (8 + 20));
    let seq = read_u32_le(&buf[..4]).unwrap();
    assert_eq!(seq, 99);
    let count = read_u32_le(&buf[4..8]).unwrap();
    assert_eq!(count, 3);
    let id0 = u64::from_le_bytes(buf[8..16].try_into().unwrap());
    assert_eq!(id0, 0x0102030405060708);
    let x0 = f32::from_le_bytes(buf[16..20].try_into().unwrap());
    assert_eq!(x0, 1.0);
    let id1 = u64::from_le_bytes(buf[36..44].try_into().unwrap());
    assert_eq!(id1, 0x1112131415161718);
    let decoded = WorldSnapshot::decode(&buf[..written]).expect("decode");
    assert_eq!(decoded.sequence, snap.sequence);
    assert_eq!(decoded.players, snap.players);
}

#[test]
fn decode_rejects_short_buffer() {
    let result = UdpPacket::decode(&[0u8; 11]);
    assert!(matches!(result, Err(SunriseError::BufferTooShort { .. })));
}

#[test]
fn decode_rejects_bad_magic() {
    let mut buf = vec![0u8; UDP_HEADER_SIZE];
    buf[..4].copy_from_slice(&[0xDE, 0xAD, 0xBE, 0xEF]);
    let result = UdpPacket::decode(&buf);
    assert!(matches!(result, Err(SunriseError::InvalidMagicNumber(_))));
}

#[test]
fn decode_maps_unknown_opcode() {
    let mut buf = vec![0u8; UDP_HEADER_SIZE];
    buf[..4].copy_from_slice(&UDP_MAGIC);
    buf[4] = 0xFF;
    let pkt = UdpPacket::decode(&buf).expect("decode");
    assert_eq!(pkt.opcode, UdpOpcode::Unknown(0xFF));
}

#[test]
fn udp_packet_wire_layout_is_exact() {
    let pkt = UdpPacket::new(UdpOpcode::PlayerPosition, 0x01020304, vec![9, 8, 7]);
    let bytes = pkt.encode().unwrap();
    assert_eq!(bytes, vec![0x53, 0x55, 0x4E, 0x55, 2, 0, 0, 0, 1, 2, 3, 4, 9, 8, 7]);
    assert_eq!(pkt.encoded_size(), 15);
    assert_eq!(pkt.to_bytes(), bytes);
}

#[test]
fn udp_packet_rejects_oversized_payload() {
    let pkt = UdpPacket::new(UdpOpcode::WorldSnapshot, 1, vec![0u8; UDP_MAX_PAYLOAD + 1]);
    match pkt.encode() {
        Err(SunriseError::PayloadTooLarge { length, max }) => {
            assert_eq!(length, UDP_MAX_PAYLOAD + 1);
            assert_eq!(max, UDP_MAX_PAYLOAD);
        }
        other => panic!("unexpected {:?}", other),
    }
    assert!(pkt.to_bytes().is_empty());
}

#[test]
fn snapshot_errors_name_the_limits() {
    let big = WorldSnapshot { sequence: 1, players: vec![(1, pos(0.0, 0.0, 0.0)); 2341] };
    let mut buf = vec![0u8; 70000];
    assert!(matches!(big.encode(&mut buf), Err(SunriseError::PayloadTooLarge { length: 2341, max: 2340 })));
    let small = WorldSnapshot { sequence: 1, players: vec![(1, pos(0.0, 0.0, 0.0))] };
    let mut short = vec![0u8; 10];
    assert!(matches!(small.encode(&mut short), Err(SunriseError::BufferTooShort { needed: 36, available: 10 })));
    assert!(matches!(WorldSnapshot::decode(&[0u8; 5]), Err(SunriseError::BufferTooShort { needed: 8, available: 5 })));
    let mut header = vec![0u8; 8];
    header[4] = 2;
    assert!(matches!(WorldSnapshot::decode(&header), Err(SunriseError::BufferTooShort { needed: 64, available: 8 })));
    header[4..8].copy_from_slice(&5000u32.to_le_bytes());
    assert!(matches!(WorldSnapshot::decode(&header), Err(SunriseError::PayloadTooLarge { length: 5000, max: 2340 })));
}

#[test]
fn udp_opcode_labels() {
    assert_eq!(UdpOpcode::Heartbeat.to_string(), "Heartbeat (0x01)");
    assert_eq!(UdpOpcode::Unknown(0xAB).to_string(), "UnknownUdp (0xAB)");
    assert_eq!(u8::from(UdpOpcode::BindAck), 4);
    assert_eq!(UdpOpcode::from(3u8), UdpOpcode::WorldSnapshot);
}
