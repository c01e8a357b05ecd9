use thanatonaut::protocol::udp_magic::{is_valid_magic, UDP_MAGIC};

#[test]
fn magic_matches_ascii() {
    assert_eq!(&UDP_MAGIC, b"SUNU");
}

#[test]
fn rejects_short_buffer() {
    assert!(!is_valid_magic(&[]));
    assert!(!is_valid_magic(&[0x53, 0x55]));
}

#[test]
fn accepts_correct_prefix() {
    let mut buf = vec![0x53, 0x55, 0x4E, 0x55];
    buf.extend_from_slice(&[0x01, 0x02, 0x03]);
    assert!(is_valid_magic(&buf));
}

#[test]
fn rejects_wrong_prefix() {
    let buf = [0xDE, 0xAD, 0xBE, 0xEF, 0x00];
    assert!(!is_valid_magic(&buf));
}
