//! SHA-256 digests, their hexadecimal form, and HMAC-SHA-256 tags.
use vstd::prelude::*;
use hmac::Mac;
use sha2::Digest;
use crate::error::{Result, SunriseError};
use crate::text::{hex_char, hex_digits, hex_padded, push_hex};

verus! {

pub const SHA256_DIGEST_SIZE: usize = 32;

/// The SHA-256 digest of `data` (FIPS 180-4).
pub uninterp spec fn sha256_of(data: Seq<u8>) -> Seq<u8>;

/// The HMAC-SHA-256 tag of `data` under `key` (RFC 2104).
pub uninterp spec fn hmac_sha256_of(key: Seq<u8>, data: Seq<u8>) -> Seq<u8>;

/// `sha2::Sha256::digest`: the digest of `data`, which is `sha256_of(data)`.
#[verifier::external_body]
fn sha256_raw(data: &[u8]) -> (r: [u8; 32])
    ensures
        r@ == sha256_of(data@),
{
    let result = sha2::Sha256::digest(data);
    let mut output = [0u8; 32];
    output.copy_from_slice(&result);
    output
}

/// `hmac::Hmac::<Sha256>::new_from_slice`, `update` and `finalize`: the tag of
/// `data` under `key`. In hmac 0.12 `new_from_slice` accepts a key of any
/// length (longer keys are hashed first), so the tag is always there.
#[verifier::external_body]
fn hmac_raw(key: &[u8], data: &[u8]) -> (r: Option<[u8; 32]>)
    ensures
        r is Some,
        r.unwrap()@ == hmac_sha256_of(key@, data@),
{
    match hmac::Hmac::<sha2::Sha256>::new_from_slice(key) {
        Ok(mut mac) => {
            mac.update(data);
            let tag = mac.finalize().into_bytes();
            let mut output = [0u8; 32];
            output.copy_from_slice(&tag);
            Some(output)
        },
        Err(_) => None,
    }
}

/// Two lower-case hexadecimal digits for every byte of `bytes`.
pub open spec fn hex_bytes(bytes: Seq<u8>) -> Seq<char>
    decreases bytes.len(),
{
    if bytes.len() == 0 {
        Seq::empty()
    } else {
        hex_bytes(bytes.drop_last()) + hex_padded(bytes.last() as nat, 2, false)
    }
}

proof fn lemma_hex_bytes_len(bytes: Seq<u8>)
    ensures
        hex_bytes(bytes).len() == 2 * bytes.len(),
    decreases bytes.len(),
{
    if bytes.len() > 0 {
        lemma_hex_bytes_len(bytes.drop_last());
        let b = bytes.last() as nat;
        if b >= 16 {
            assert(hex_digits(b, false) == hex_digits(b / 16, false).push(hex_char(b % 16, false)));
            assert(hex_digits(b / 16, false).len() == 1);
        }
    }
}

pub fn sha256_digest(data: &[u8]) -> (d: [u8; 32])
    ensures
        d@ == sha256_of(data@),
{
    sha256_raw(data)
}

/// The digest of `data` as 64 lower-case hexadecimal digits.
pub fn sha256_hex(data: &[u8]) -> (s: String)
    ensures
        s@ == hex_bytes(sha256_of(data@)),
        s@.len() == 64,
{
    let digest = sha256_digest(data);
    let mut hex = String::new();
    let mut i: usize = 0;
    while i < 32
        invariant
            i <= 32,
            digest@ == sha256_of(data@),
            hex@ == hex_bytes(digest@.subrange(0, i as int)),
        decreases 32 - i,
    {
        push_hex(&mut hex, digest[i] as u64, 2, false);
        proof {
            assert(digest@.subrange(0, i + 1).drop_last() =~= digest@.subrange(0, i as int));
        }
        i += 1;
    }
    proof {
        assert(digest@.subrange(0, 32) =~= digest@);
        lemma_hex_bytes_len(digest@);
    }
    hex
}

/// The HMAC-SHA-256 tag of `data` under `key`.
pub fn hmac_sha256(key: &[u8], data: &[u8]) -> (r: Result<[u8; 32]>)
    ensures
        r matches Ok(t) && t@ == hmac_sha256_of(key@, data@),
{
    match hmac_raw(key, data) {
        Some(t) => Ok(t),
        None => Err(SunriseError::InvalidKeyLength { expected: 32, got: key.len() }),
    }
}

} // verus!
