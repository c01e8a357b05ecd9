use thanatonaut::error::SunriseError;
use thanatonaut::protocol::bap_frame::{BapFrame, BAP_MAGIC, HEADER_SIZE, MAX_PAYLOAD_SIZE};
use thanatonaut::protocol::envelope::{ServiceResponseEnvelope, ServiceStatusCode};
use thanatonaut::protocol::opcode::Opcode;

#[test]
fn test_bap_frame_roundtrip() {
    let payload = vec![0x01, 0x02, 0x03, 0x04, 0x05];
    let frame = BapFrame::new(1337, Opcode::AccountSummary, payload.clone());

    let encoded = frame.to_bytes().expect("Encoding should succeed");
    assert_eq!(encoded.len(), HEADER_SIZE + payload.len());
    assert_eq!(&encoded[..4], &BAP_MAGIC);

    let (decoded, consumed) = BapFrame::decode(&encoded).expect("Decoding should succeed");
    assert_eq!(consumed, encoded.len());
    assert_eq!(decoded.transaction_id, 1337);
    assert_eq!(decoded.opcode, Opcode::AccountSummary);
    assert_eq!(decoded.payload, payload);
}

#[test]
fn test_bap_frame_empty_payload() {
    let frame = BapFrame::new(100, Opcode::Signon, Vec::new());
    let encoded = frame.to_bytes().expect("Encoding empty payload should succeed");
    assert_eq!(encoded.len(), HEADER_SIZE);

    let (decoded, consumed) = BapFrame::decode(&encoded).expect("Decoding empty payload should succeed");
    assert_eq!(consumed, HEADER_SIZE);
    assert_eq!(decoded.transaction_id, 100);
    assert_eq!(decoded.opcode, Opcode::Signon);
    assert!(decoded.payload.is_empty());
}

#[test]
fn test_bap_frame_invalid_magic_rejected() {
    let bad_frame = vec![0x58, 0x58, 0x58, 0x58, 0x00, 0x00, 0x00, 0x06, 0x00, 0x00, 0x00, 0x01, 0x01, 0x01];
    let err = BapFrame::decode(&bad_frame).unwrap_err();
    match err {
        SunriseError::InvalidMagicNumber(m) => assert_eq!(m, [0x58, 0x58, 0x58, 0x58]),
        other => panic!("Expected InvalidMagicNumber, got: {:?}", other),
    }
}

#[test]
fn test_bap_frame_truncated_buffer_rejected() {
    let truncated = vec![0x42, 0x41, 0x50, 0x30, 0x00, 0x00];
    let err = BapFrame::decode(&truncated).unwrap_err();
    match err {
        SunriseError::BufferTooShort { needed, available } => {
            assert_eq!(needed, HEADER_SIZE);
            assert_eq!(available, 6);
        }
        other => panic!("Expected BufferTooShort, got: {:?}", other),
    }
}

#[test]
fn bap_frame_wire_layout_is_exact() {
    let frame = BapFrame::new(0x0A0B0C0D, Opcode::QueueZ, vec![0xEE]);
    let bytes = frame.to_bytes().unwrap();
    assert_eq!(bytes, vec![0x42, 0x41, 0x50, 0x30, 0, 0, 0, 7, 0x0A, 0x0B, 0x0C, 0x0D, 0x01, 0x03, 0xEE]);
    assert_eq!(frame.encoded_size(), 15);
}

#[test]
fn bap_frame_decode_reports_short_body_and_oversize() {
    let mut body_too_small = vec![0x42, 0x41, 0x50, 0x30, 0, 0, 0, 5];
    body_too_small.extend_from_slice(&[0u8; 6]);
    assert!(matches!(
        BapFrame::decode(&body_too_small),
        Err(SunriseError::BufferTooShort { needed: 6, available: 5 })
    ));
    let mut huge = vec![0x42, 0x41, 0x50, 0x30];
    huge.extend_from_slice(&((MAX_PAYLOAD_SIZE as u32) + 7).to_be_bytes());
    huge.extend_from_slice(&[0u8; 6]);
    assert!(matches!(BapFrame::decode(&huge), Err(SunriseError::PayloadTooLarge { length, max }) if length == MAX_PAYLOAD_SIZE + 1 && max == MAX_PAYLOAD_SIZE));
    let mut partial = BapFrame::new(1, Opcode::Signon, vec![1, 2, 3]).to_bytes().unwrap();
    partial.pop();
    assert!(matches!(BapFrame::decode(&partial), Err(SunriseError::BufferTooShort { needed: 17, available: 16 })));
}

#[test]
fn bap_frame_encode_into_short_buffer() {
    let frame = BapFrame::new(1, Opcode::Signon, vec![1, 2, 3]);
    let mut small = [0u8; 10];
    assert!(matches!(frame.encode(&mut small), Err(SunriseError::BufferTooShort { needed: 17, available: 10 })));
    assert_eq!(small, [0u8; 10]);
}

#[test]
fn envelope_roundtrip_and_layout() {
    let env = ServiceResponseEnvelope::new(Opcode::EquipItem, 7, ServiceStatusCode::ItemLocked, 2, vec![5, 6]);
    let bytes = env.encode().unwrap();
    assert_eq!(bytes, vec![0x05, 0x01, 0, 0, 0, 7, 0, 0, 0, 5, 0, 0, 0, 2, 5, 6]);
    let back = ServiceResponseEnvelope::decode(&bytes).unwrap();
    assert_eq!(back, env);
    assert!(matches!(ServiceResponseEnvelope::decode(&[0u8; 13]), Err(SunriseError::BufferTooShort { needed: 14, available: 13 })));
}

#[test]
fn opcode_labels_and_codes() {
    assert_eq!(Opcode::QueueZ.to_string(), "QueueZ (0x0103)");
    assert_eq!(Opcode::Unknown(0xBEEF).to_string(), "UnknownOpcode (0xBEEF)");
    assert_eq!(u16::from(Opcode::FireteamBroadcast), 0x0604);
    assert_eq!(Opcode::from(0x0701u16), Opcode::BindUdp);
    assert_eq!(Opcode::from(0x9999u16), Opcode::Unknown(0x9999));
}
