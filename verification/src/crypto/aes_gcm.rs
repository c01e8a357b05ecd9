//! AES-128-GCM authenticated encryption (RFC 5116, AEAD_AES_128_GCM): a
//! 16-byte key, a 12-byte nonce and a 16-byte tag.
use vstd::prelude::*;
use ::aes_gcm::aead::{Aead, KeyInit, Payload};
use ::aes_gcm::{Aes128Gcm, Key, Nonce};
use crate::error::{Result, SunriseError};
use crate::text::string_push_str;

verus! {

pub const KEY_SIZE: usize = 16;

pub const NONCE_SIZE: usize = 12;

pub const TAG_SIZE: usize = 16;

/// The largest plaintext, and the largest associated data, AES-GCM takes:
/// 2^36 bytes.
pub const GCM_MAX: u64 = 0x10_0000_0000;

/// The ciphertext of `msg` followed by its tag, under `key` and `nonce`,
/// authenticating `aad` as well.
pub uninterp spec fn aes128_gcm_seal(key: Seq<u8>, nonce: Seq<u8>, msg: Seq<u8>, aad: Seq<u8>) -> Seq<u8>;

/// The plaintext of a ciphertext followed by its tag, when the tag checks.
pub uninterp spec fn aes128_gcm_open(key: Seq<u8>, nonce: Seq<u8>, sealed: Seq<u8>, aad: Seq<u8>) -> Option<Seq<u8>>;

/// `Aes128Gcm::encrypt` with `Payload { msg, aad }`. In aes-gcm 0.10 it fails
/// exactly when the message or the associated data is longer than 2^36
/// bytes; otherwise it returns the ciphertext, as long as the message, with
/// the 16-byte tag appended, which opening with the same key, nonce and
/// associated data turns back into the message.
#[verifier::external_body]
fn gcm_seal(key: &[u8], nonce: &[u8], msg: &[u8], aad: &[u8]) -> (r: Option<Vec<u8>>)
    requires
        key@.len() == 16,
        nonce@.len() == 12,
    ensures
        r is Some <==> (msg@.len() <= GCM_MAX && aad@.len() <= GCM_MAX),
        r is Some ==> r.unwrap()@ == aes128_gcm_seal(key@, nonce@, msg@, aad@),
        r is Some ==> r.unwrap()@.len() == msg@.len() + 16,
        r is Some ==> aes128_gcm_open(key@, nonce@, r.unwrap()@, aad@) == Some(msg@),
{
    let cipher = Aes128Gcm::new(Key::<Aes128Gcm>::from_slice(key));
    match cipher.encrypt(Nonce::from_slice(nonce), Payload { msg, aad }) {
        Ok(c) => Some(c),
        Err(_) => None,
    }
}

/// `Aes128Gcm::decrypt` with `Payload { msg: sealed, aad }`: the plaintext
/// when the trailing tag checks, else nothing.
#[verifier::external_body]
fn gcm_open(key: &[u8], nonce: &[u8], sealed: &[u8], aad: &[u8]) -> (r: Option<Vec<u8>>)
    requires
        key@.len() == 16,
        nonce@.len() == 12,
    ensures
        r is None <==> aes128_gcm_open(key@, nonce@, sealed@, aad@) is None,
        r is Some ==> aes128_gcm_open(key@, nonce@, sealed@, aad@) == Some(r.unwrap()@),
{
    let cipher = Aes128Gcm::new(Key::<Aes128Gcm>::from_slice(key));
    match cipher.decrypt(Nonce::from_slice(nonce), Payload { msg: sealed, aad }) {
        Ok(p) => Some(p),
        Err(_) => None,
    }
}

/// Encrypts `plaintext`, returning the ciphertext and the tag apart.
pub fn encrypt_aes_gcm(key: &[u8], nonce: &[u8], plaintext: &[u8], associated_data: &[u8]) -> (r: Result<
    (Vec<u8>, [u8; 16]),
>)
    ensures
        key@.len() != 16 ==> (r matches Err(SunriseError::InvalidKeyLength { expected, got }) && expected == 16 && got
            == key@.len()),
        key@.len() == 16 && nonce@.len() != 12 ==> (r matches Err(SunriseError::InvalidNonceLength { expected, got })
            && expected == 12 && got == nonce@.len()),
        key@.len() == 16 && nonce@.len() == 12 && !(plaintext@.len() <= GCM_MAX && associated_data@.len() <= GCM_MAX)
            ==> (r matches Err(SunriseError::IoError(m)) && m@ == "AES-GCM encrypt failed: aead::Error"@),
        key@.len() == 16 && nonce@.len() == 12 && plaintext@.len() <= GCM_MAX && associated_data@.len() <= GCM_MAX ==> (
        r matches Ok((c, t)) && c@ + t@ == aes128_gcm_seal(key@, nonce@, plaintext@, associated_data@) && c@.len()
            == plaintext@.len() && aes128_gcm_open(key@, nonce@, c@ + t@, associated_data@) == Some(plaintext@)),
{
    if key.len() != KEY_SIZE {
        return Err(SunriseError::InvalidKeyLength { expected: KEY_SIZE, got: key.len() });
    }
    if nonce.len() != NONCE_SIZE {
        return Err(SunriseError::InvalidNonceLength { expected: NONCE_SIZE, got: nonce.len() });
    }
    let sealed = match gcm_seal(key, nonce, plaintext, associated_data) {
        Some(c) => c,
        None => {
            let mut m = String::new();
            string_push_str(&mut m, "AES-GCM encrypt failed: aead::Error");
            return Err(SunriseError::IoError(m));
        },
    };
    if sealed.len() < TAG_SIZE {
        return Err(SunriseError::DecryptionFailed);
    }
    let sealed_len = sealed.len();
    let split_pos = sealed_len - TAG_SIZE;
    let ciphertext = crate::protocol::bap_frame::slice_range_to_vec(sealed.as_slice(), 0, split_pos);
    let mut tag = [0u8; 16];
    let mut i: usize = 0;
    while i < 16
        invariant
            i <= 16,
            split_pos + 16 == sealed@.len(),
            sealed@.len() <= usize::MAX,
            forall|k: int| 0 <= k < i ==> tag@[k] == sealed@[split_pos + k],
        decreases 16 - i,
    {
        tag[i] = sealed[split_pos + i];
        i += 1;
    }
    proof {
        assert(ciphertext@ + tag@ =~= sealed@);
    }
    Ok((ciphertext, tag))
}

/// Decrypts `ciphertext` whose tag is `tag`.
pub fn decrypt_aes_gcm(
    key: &[u8],
    nonce: &[u8],
    ciphertext: &[u8],
    tag: &[u8],
    associated_data: &[u8],
) -> (r: Result<Vec<u8>>)
    ensures
        key@.len() != 16 ==> (r matches Err(SunriseError::InvalidKeyLength { expected, got }) && expected == 16 && got
            == key@.len()),
        key@.len() == 16 && nonce@.len() != 12 ==> (r matches Err(SunriseError::InvalidNonceLength { expected, got })
            && expected == 12 && got == nonce@.len()),
        key@.len() == 16 && nonce@.len() == 12 && tag@.len() != 16 ==> (r matches Err(
            SunriseError::InvalidTagLength { expected, got },
        ) && expected == 16 && got == tag@.len()),
        key@.len() == 16 && nonce@.len() == 12 && tag@.len() == 16 ==> match aes128_gcm_open(
            key@,
            nonce@,
            ciphertext@ + tag@,
            associated_data@,
        ) {
            Some(p) => r matches Ok(v) && v@ == p,
            None => r matches Err(SunriseError::DecryptionFailed),
        },
{
    if key.len() != KEY_SIZE {
        return Err(SunriseError::InvalidKeyLength { expected: KEY_SIZE, got: key.len() });
    }
    if nonce.len() != NONCE_SIZE {
        return Err(SunriseError::InvalidNonceLength { expected: NONCE_SIZE, got: nonce.len() });
    }
    if tag.len() != TAG_SIZE {
        return Err(SunriseError::InvalidTagLength { expected: TAG_SIZE, got: tag.len() });
    }
    let mut combined: Vec<u8> = Vec::new();
    let mut i: usize = 0;
    while i < ciphertext.len()
        invariant
            i <= ciphertext@.len(),
            combined@ == ciphertext@.subrange(0, i as int),
        decreases ciphertext@.len() - i,
    {
        combined.push(ciphertext[i]);
        i += 1;
        proof {
            assert(combined@ =~= ciphertext@.subrange(0, i as int));
        }
    }
    let mut j: usize = 0;
    while j < 16
        invariant
            j <= 16,
            tag@.len() == 16,
            combined@ == ciphertext@ + tag@.subrange(0, j as int),
        decreases 16 - j,
    {
        combined.push(tag[j]);
        j += 1;
        proof {
            assert(combined@ =~= ciphertext@ + tag@.subrange(0, j as int));
        }
    }
    proof {
        assert(ciphertext@.subrange(0, i as int) =~= ciphertext@);
        assert(tag@.subrange(0, 16) =~= tag@);
    }
    match gcm_open(key, nonce, combined.as_slice(), associated_data) {
        Some(p) => Ok(p),
        None => Err(SunriseError::DecryptionFailed),
    }
}

} // verus!
