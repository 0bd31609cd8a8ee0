//! The rows that the vault hands to its storage and reads back from it.

use vstd::prelude::*;

verus! {

/// A stored credential. Only `password` is encrypted: it holds the base64 text of a
/// nonce followed by the ciphertext.
#[derive(Clone, Debug, PartialEq, Eq)]
pub struct Record {
    pub id: i32,
    pub service: String,
    pub email: String,
    pub username: String,
    pub password: String,
    pub notes: String,
}

/// A credential to be stored; the storage assigns its identifier.
#[derive(Clone, Debug, PartialEq, Eq)]
pub struct NewRecord {
    pub service: String,
    pub email: String,
    pub username: String,
    pub password: String,
    pub notes: String,
}

/// The stored master record: the salt of the key derivation and the master key
/// encrypted under the derived key with `nonce`.
#[derive(Clone, Debug, PartialEq, Eq)]
pub struct MasterRecord {
    pub id: i32,
    pub encrypted_master_key: Vec<u8>,
    pub nonce: Vec<u8>,
    pub salt: Vec<u8>,
}

/// A master record to be stored, as `bootstrap` makes it.
#[derive(Clone, Debug, PartialEq, Eq)]
pub struct NewMasterRecord {
    pub encrypted_master_key: Vec<u8>,
    pub nonce: Vec<u8>,
    pub salt: Vec<u8>,
}

/// Whether an entry has all the fields that a credential needs: a service, an email,
/// a username and a password (the notes may be empty).
pub fn entry_is_complete(service: &str, email: &str, username: &str, password: &str) -> (r: bool)
    ensures
        r == (service@.len() > 0 && email@.len() > 0 && username@.len() > 0 && password@.len()
            > 0),
{
    !service.is_empty() && !email.is_empty() && !username.is_empty() && !password.is_empty()
}

} // verus!
