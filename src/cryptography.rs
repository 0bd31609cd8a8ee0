//! The key holder that encrypts and decrypts under one 32-byte key.

use crate::aead::{
    aead_opened, aead_seal, body_determines, open, seal, sealable, sealed_only_from, NONCE_LEN, TAG_LEN,
};
use crate::erase::wipe;
use crate::error::VaultError;
use crate::kdf::{argon2id_hash, derivation_accepts, derived_key, KEY_LEN, MAX_INPUT_LEN, MIN_SALT_LEN, M_COST, P_COST, T_COST};
use crate::random::random_bytes;
use vstd::prelude::*;
use vstd::string::StringSliceAdditionalSpecFns;

verus! {

/// Length of a vault's salt in bytes.
pub const SALT_LENGTH: usize = 32;

/// What decrypting a stored blob (a nonce followed by a ciphertext) under `key` gives.
pub open spec fn record_opened(key: Seq<u8>, blob: Seq<u8>) -> Option<Seq<u8>> {
    if blob.len() < NONCE_LEN {
        None
    } else {
        aead_opened(key, blob.take(NONCE_LEN as int), blob.skip(NONCE_LEN as int))
    }
}

/// Holds one 32-byte key and encrypts and decrypts under it. The key is erased when
/// the engine is dropped.
pub struct CryptEngine {
    key: Vec<u8>,
}

impl CryptEngine {
    #[verifier::type_invariant]
    spec fn inv(self) -> bool {
        self.key@.len() == KEY_LEN
    }

    /// The key that the engine holds.
    pub closed spec fn key(&self) -> Seq<u8> {
        self.key@
    }

    /// An engine over a key of the right length.
    pub fn from_key(key: Vec<u8>) -> (r: Self)
        requires
            key@.len() == KEY_LEN,
        ensures
            r.key() == key@,
    {
        CryptEngine { key }
    }

    /// Creates an engine whose key is derived from `password` and `salt`; fails with
    /// `Configuration` exactly where the derivation does not accept their lengths.
    pub fn new(password: &str, salt: &[u8]) -> (r: Result<Self, VaultError>)
        ensures
            r is Ok <==> derivation_accepts(password.spec_bytes(), salt@),
            r matches Ok(e) ==> e.key() == derived_key(password.spec_bytes(), salt@) && e.key().len()
                == KEY_LEN,
            r matches Err(err) ==> err == VaultError::Configuration,
    {
        match Self::derive_key(password, salt) {
            Some(key) => Ok(CryptEngine { key }),
            None => Err(VaultError::Configuration),
        }
    }

    fn derive_key(password: &str, salt: &[u8]) -> (r: Option<Vec<u8>>)
        ensures
            r is Some <==> derivation_accepts(password.spec_bytes(), salt@),
            r matches Some(k) ==> k@ == derived_key(password.spec_bytes(), salt@) && k@.len()
                == KEY_LEN,
    {
        let pwd = password.as_bytes();
        if pwd.len() > MAX_INPUT_LEN || salt.len() < MIN_SALT_LEN || salt.len() > MAX_INPUT_LEN {
            return None;
        }
        Some(argon2id_hash(M_COST, T_COST, P_COST, pwd, salt, KEY_LEN))
    }

    /// A fresh random 32-byte master key.
    pub fn generate_master_key() -> (r: Vec<u8>)
        ensures
            r@.len() == KEY_LEN,
    {
        random_bytes(KEY_LEN)
    }

    /// A fresh random 12-byte nonce.
    fn generate_nonce() -> (r: Vec<u8>)
        ensures
            r@.len() == NONCE_LEN,
    {
        random_bytes(NONCE_LEN)
    }

    /// A fresh random 32-byte salt.
    pub fn generate_salt() -> (r: Vec<u8>)
        ensures
            r@.len() == SALT_LENGTH,
    {
        random_bytes(SALT_LENGTH)
    }

    /// Encrypts `master_key` under the engine's key with a fresh nonce, and returns the
    /// nonce and the ciphertext; decrypting that ciphertext gives `master_key` back.
    pub fn encrypt_master_key(&self, master_key: &[u8]) -> (r: Result<(Vec<u8>, Vec<u8>), VaultError>)
        ensures
            r is Ok <==> sealable(master_key@),
            r matches Ok((nonce, ct)) ==> {
                &&& nonce@.len() == NONCE_LEN
                &&& ct@ == aead_seal(self.key(), nonce@, master_key@)
                &&& ct@.len() == master_key@.len() + TAG_LEN
                &&& aead_opened(self.key(), nonce@, ct@) == Some(master_key@)
                &&& body_determines(self.key(), nonce@, ct@, master_key@)
            },
            r matches Err(e) ==> e == VaultError::EncryptionFailed,
    {
        proof {
            use_type_invariant(self);
        }
        let nonce = Self::generate_nonce();
        match seal(self.key.as_slice(), nonce.as_slice(), master_key) {
            Some(ct) => Ok((nonce, ct)),
            None => Err(VaultError::EncryptionFailed),
        }
    }

    /// Decrypts `ciphertext` under the engine's key and `nonce`; fails with
    /// `AuthenticationFailed` exactly where it is not the encryption of a plaintext
    /// under them (a nonce of another length included).
    pub fn decrypt_master_key(&self, nonce: &[u8], ciphertext: &[u8]) -> (r: Result<Vec<u8>, VaultError>)
        ensures
            r is Ok <==> nonce@.len() == NONCE_LEN && aead_opened(self.key(), nonce@, ciphertext@) is Some,
            ciphertext@.len() < TAG_LEN ==> r is Err,
            r matches Ok(m) ==> {
                &&& aead_opened(self.key(), nonce@, ciphertext@) == Some(m@)
                &&& aead_seal(self.key(), nonce@, m@) == ciphertext@
                &&& sealed_only_from(self.key(), nonce@, ciphertext@, m@)
                &&& m@.len() + TAG_LEN == ciphertext@.len()
            },
            r matches Err(e) ==> e == VaultError::AuthenticationFailed,
    {
        proof {
            use_type_invariant(self);
        }
        if nonce.len() != NONCE_LEN {
            return Err(VaultError::AuthenticationFailed);
        }
        match open(self.key.as_slice(), nonce, ciphertext) {
            Some(m) => Ok(m),
            None => Err(VaultError::AuthenticationFailed),
        }
    }

    /// Encrypts `record` under the engine's key with a fresh nonce, and returns the
    /// nonce followed by the ciphertext; `decrypt_record` gives `record` back from it.
    pub fn encrypt_record(&self, record: &[u8]) -> (r: Result<Vec<u8>, VaultError>)
        ensures
            r is Ok <==> sealable(record@),
            r matches Ok(blob) ==> {
                &&& blob@.len() == NONCE_LEN + record@.len() + TAG_LEN
                &&& blob@.skip(NONCE_LEN as int) == aead_seal(
                    self.key(),
                    blob@.take(NONCE_LEN as int),
                    record@,
                )
                &&& record_opened(self.key(), blob@) == Some(record@)
                &&& body_determines(
                    self.key(),
                    blob@.take(NONCE_LEN as int),
                    blob@.skip(NONCE_LEN as int),
                    record@,
                )
            },
            r matches Err(e) ==> e == VaultError::EncryptionFailed,
    {
        proof {
            use_type_invariant(self);
        }
        let mut blob = Self::generate_nonce();
        match seal(self.key.as_slice(), blob.as_slice(), record) {
            Some(ct) => {
                let ghost nonce = blob@;
                let mut ct = ct;
                blob.append(&mut ct);
                proof {
                    assert(blob@.take(NONCE_LEN as int) =~= nonce);
                    assert(blob@.skip(NONCE_LEN as int) =~= aead_seal(self.key(), nonce, record@));
                }
                Ok(blob)
            },
            None => Err(VaultError::EncryptionFailed),
        }
    }

    /// Decrypts a blob made by `encrypt_record` (a nonce followed by a ciphertext);
    /// fails with `DecryptionFailed` exactly where it does not decrypt.
    pub fn decrypt_record(&self, blob: &[u8]) -> (r: Result<Vec<u8>, VaultError>)
        ensures
            r is Ok <==> record_opened(self.key(), blob@) is Some,
            blob@.len() < NONCE_LEN + TAG_LEN ==> r is Err,
            r matches Ok(m) ==> {
                &&& record_opened(self.key(), blob@) == Some(m@)
                &&& aead_seal(self.key(), blob@.take(NONCE_LEN as int), m@) == blob@.skip(
                    NONCE_LEN as int,
                )
                &&& sealed_only_from(
                    self.key(),
                    blob@.take(NONCE_LEN as int),
                    blob@.skip(NONCE_LEN as int),
                    m@,
                )
                &&& NONCE_LEN + m@.len() + TAG_LEN == blob@.len()
            },
            r matches Err(e) ==> e == VaultError::DecryptionFailed,
    {
        proof {
            use_type_invariant(self);
        }
        if blob.len() < NONCE_LEN {
            return Err(VaultError::DecryptionFailed);
        }
        let (nonce, ct) = blob.split_at(NONCE_LEN);
        proof {
            assert(nonce@ =~= blob@.take(NONCE_LEN as int));
            assert(ct@ =~= blob@.skip(NONCE_LEN as int));
        }
        match open(self.key.as_slice(), nonce, ct) {
            Some(m) => Ok(m),
            None => Err(VaultError::DecryptionFailed),
        }
    }
}

impl Drop for CryptEngine {
    fn drop(&mut self)
        opens_invariants none
        no_unwind
    {
        proof {
            use_type_invariant(&*self);
        }
        wipe(&mut self.key);
    }
}

} // verus!
