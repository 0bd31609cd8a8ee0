//! An encrypted credential vault: a passphrase unlocks a per-vault master key,
//! which in turn protects the password field of every stored record.

pub mod aead;
pub mod cryptography;
pub mod encoding;
pub mod erase;
pub mod error;
pub mod kdf;
pub mod models;
pub mod password;
pub mod random;
pub mod session;
pub mod vault;
