pub mod hash;
pub mod aes_gcm;
