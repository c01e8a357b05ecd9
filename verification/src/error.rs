use vstd::prelude::*;

verus! {

/// Every failure the library reports.
#[derive(Debug, Clone)]
pub enum SunriseError {
    BufferTooShort { needed: usize, available: usize },
    PayloadTooLarge { length: usize, max: usize },
    InvalidMagicNumber([u8; 4]),
    CorruptVarint,
    InvalidBitStream,
    InvalidBucketCount(usize),
    InvalidKeyLength { expected: usize, got: usize },
    InvalidNonceLength { expected: usize, got: usize },
    InvalidTagLength { expected: usize, got: usize },
    DecryptionFailed,
    EncryptionFailed,
    FileNotFound(String),
    IoError(String),
    InvalidJson(String),
    AddressInUse(String),
    ConnectionClosed,
}

pub type Result<T> = core::result::Result<T, SunriseError>;

} // verus!
