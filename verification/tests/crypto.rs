use thanatonaut::crypto::aes_gcm::{decrypt_aes_gcm, encrypt_aes_gcm};
use thanatonaut::crypto::hash::{hmac_sha256, sha256_digest, sha256_hex};
use thanatonaut::error::SunriseError;

fn hex_of(bytes: &[u8]) -> String {
    let mut s = String::new();
    for b in bytes {
        s.push_str(&format!("{:02x}", b));
    }
    s
}

#[test]
fn sha256_of_abc() {
    let d = sha256_digest(b"abc");
    assert_eq!(hex_of(&d), "ba7816bf8f01cfea414140de5dae2223b00361a396177a9cb410ff61f20015ad");
    assert_eq!(sha256_hex(b"abc"), "ba7816bf8f01cfea414140de5dae2223b00361a396177a9cb410ff61f20015ad");
}

#[test]
fn sha256_of_empty_input() {
    assert_eq!(sha256_hex(b""), "e3b0c44298fc1c149afbf4c8996fb92427ae41e4649b934ca495991b7852b855");
}

#[test]
fn hmac_sha256_known_answer() {
    let tag = hmac_sha256(b"Jefe", b"what do ya want for nothing?").unwrap();
    assert_eq!(hex_of(&tag), "5bdcc146bf60754e6a042426089575c75a003f089d2739839dec58b964ec3843");
}

#[test]
fn aes_gcm_roundtrip() {
    let key = [7u8; 16];
    let nonce = [9u8; 12];
    let (ct, tag) = encrypt_aes_gcm(&key, &nonce, b"guardian data", b"header").unwrap();
    assert_eq!(ct.len(), 13);
    assert_ne!(ct, b"guardian data".to_vec());
    let pt = decrypt_aes_gcm(&key, &nonce, &ct, &tag, b"header").unwrap();
    assert_eq!(pt, b"guardian data".to_vec());
}

#[test]
fn aes_gcm_rejects_bad_lengths() {
    let nonce = [0u8; 12];
    match encrypt_aes_gcm(&[0u8; 15], &nonce, b"x", b"") {
        Err(SunriseError::InvalidKeyLength { expected, got }) => {
            assert_eq!(expected, 16);
            assert_eq!(got, 15);
        }
        _ => panic!("expected a key length error"),
    }
    match encrypt_aes_gcm(&[0u8; 16], &[0u8; 8], b"x", b"") {
        Err(SunriseError::InvalidNonceLength { expected, got }) => {
            assert_eq!(expected, 12);
            assert_eq!(got, 8);
        }
        _ => panic!("expected a nonce length error"),
    }
    match decrypt_aes_gcm(&[0u8; 16], &nonce, b"x", &[0u8; 4], b"") {
        Err(SunriseError::InvalidTagLength { expected, got }) => {
            assert_eq!(expected, 16);
            assert_eq!(got, 4);
        }
        _ => panic!("expected a tag length error"),
    }
}

#[test]
fn aes_gcm_tampered_tag_fails() {
    let key = [1u8; 16];
    let nonce = [2u8; 12];
    let (ct, mut tag) = encrypt_aes_gcm(&key, &nonce, b"payload", b"").unwrap();
    tag[0] ^= 0xFF;
    assert!(matches!(decrypt_aes_gcm(&key, &nonce, &ct, &tag, b""), Err(SunriseError::DecryptionFailed)));
    let (ct2, tag2) = encrypt_aes_gcm(&key, &nonce, b"payload", b"aad").unwrap();
    assert!(matches!(decrypt_aes_gcm(&key, &nonce, &ct2, &tag2, b"other"), Err(SunriseError::DecryptionFailed)));
}
