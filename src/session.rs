//! An unlocked vault: the only holder of the plaintext master key.

use crate::aead::{aead_seal, sealable, NONCE_LEN, TAG_LEN};
use crate::cryptography::{record_opened, CryptEngine};
use crate::encoding::{base64_decoded, base64_text, from_base64, string_from_utf8, to_base64, MAX_BASE64_INPUT};
use crate::error::VaultError;
use crate::kdf::KEY_LEN;
use crate::models::{NewRecord, Record};
use vstd::prelude::*;
use vstd::string::StringSliceAdditionalSpecFns;
use vstd::utf8::{decode_utf8, encode_utf8, valid_utf8};

verus! {

broadcast use {vstd::utf8::encode_utf8_valid_utf8, vstd::utf8::encode_utf8_decode_utf8};

/// A plaintext (as UTF-8 bytes) that a session can encrypt into a stored field.
pub open spec fn field_encryptable(pt: Seq<u8>) -> bool {
    &&& sealable(pt)
    &&& pt.len() + NONCE_LEN + TAG_LEN <= MAX_BASE64_INPUT
}

/// `text` is the base64 text of some nonce followed by the encryption of `pt` under
/// `key` with that nonce.
pub open spec fn is_sealed_field(key: Seq<u8>, pt: Seq<u8>, text: Seq<char>) -> bool {
    exists|nonce: Seq<u8>|
        nonce.len() == NONCE_LEN && text == base64_text(nonce + #[trigger] aead_seal(key, nonce, pt))
}

/// `text` is the base64 text of a nonce followed by a ciphertext of a `pt_len`-byte
/// plaintext.
pub open spec fn field_has_length(text: Seq<char>, pt_len: nat) -> bool {
    base64_decoded(text) matches Some(b) && b.len() == NONCE_LEN + pt_len + TAG_LEN
}

/// What a stored field decrypts to under `key`: the base64 text is decoded, split into
/// nonce and ciphertext, decrypted, and read as UTF-8.
pub open spec fn field_opened(key: Seq<u8>, text: Seq<char>) -> Option<Seq<char>> {
    match base64_decoded(text) {
        Some(blob) => match record_opened(key, blob) {
            Some(m) => if valid_utf8(m) {
                Some(decode_utf8(m))
            } else {
                None
            },
            None => None,
        },
        None => None,
    }
}

/// An unlocked vault. It exists only while the vault is unlocked, and erases its
/// master key when it is dropped.
/// A string has at least as many UTF-8 bytes as characters.
proof fn lemma_utf8_not_shorter(chars: Seq<char>)
    ensures
        encode_utf8(chars).len() >= chars.len(),
    decreases chars.len(),
{
    if chars.len() > 0 {
        lemma_utf8_not_shorter(chars.drop_first());
    }
}

pub struct Session {
    engine: CryptEngine,
}

impl Session {
    /// The master key that the session holds.
    pub closed spec fn key(&self) -> Seq<u8> {
        self.engine.key()
    }

    /// A session over a 32-byte master key.
    pub fn new(key: Vec<u8>) -> (s: Session)
        requires
            key@.len() == KEY_LEN,
        ensures
            s.key() == key@,
    {
        Session { engine: CryptEngine::from_key(key) }
    }

    fn get_key(&self) -> (r: &CryptEngine)
        ensures
            r.key() == self.key(),
    {
        &self.engine
    }

    /// Encrypts a field under the master key with a fresh nonce and returns the base64
    /// text of the nonce followed by the ciphertext; `decrypt_password` gives the
    /// plaintext back from it.
    pub fn encrypt_field(&self, plaintext: &str) -> (r: Result<String, VaultError>)
        ensures
            r is Ok <==> field_encryptable(plaintext.spec_bytes()),
            r matches Ok(t) ==> {
                &&& is_sealed_field(self.key(), plaintext.spec_bytes(), t@)
                &&& field_opened(self.key(), t@) == Some(plaintext@)
                &&& field_has_length(t@, plaintext.spec_bytes().len())
                &&& t@ != plaintext@
            },
            r matches Err(e) ==> e == VaultError::EncryptionFailed,
    {
        let bytes = plaintext.as_bytes();
        if bytes.len() > MAX_BASE64_INPUT - NONCE_LEN - TAG_LEN {
            return Err(VaultError::EncryptionFailed);
        }
        match self.get_key().encrypt_record(bytes) {
            Ok(blob) => {
                let text = to_base64(blob.as_slice());
                proof {
                    let nonce = blob@.take(NONCE_LEN as int);
                    assert(blob@ =~= nonce + aead_seal(self.key(), nonce, bytes@));
                    assert(base64_decoded(text@) == Some(blob@));
                    lemma_utf8_not_shorter(plaintext@);
                    assert(text@.len() > plaintext@.len());
                }
                Ok(text)
            },
            Err(e) => Err(e),
        }
    }

    /// Decrypts a stored field made by `encrypt_field`; fails with `DecryptionFailed`
    /// exactly where the text does not decrypt under the master key to UTF-8 text.
    pub fn decrypt_password(&self, encrypted_password_base64: &str) -> (r: Result<String, VaultError>)
        ensures
            r is Ok <==> field_opened(self.key(), encrypted_password_base64@) is Some,
            r matches Ok(s) ==> field_opened(self.key(), encrypted_password_base64@) == Some(s@),
            r matches Err(e) ==> e == VaultError::DecryptionFailed,
    {
        let blob = match from_base64(encrypted_password_base64) {
            Some(b) => b,
            None => return Err(VaultError::DecryptionFailed),
        };
        proof {
            assert(base64_decoded(encrypted_password_base64@) == Some(blob@));
        }
        let plain = match self.get_key().decrypt_record(blob.as_slice()) {
            Ok(m) => m,
            Err(e) => return Err(e),
        };
        match string_from_utf8(plain) {
            Some(s) => Ok(s),
            None => Err(VaultError::DecryptionFailed),
        }
    }

    /// The row to store for a new credential: every field as given, but the password,
    /// which is encrypted by `encrypt_field`.
    pub fn insert_entry(
        &self,
        service: &str,
        email: &str,
        username: &str,
        password: &str,
        notes: &str,
    ) -> (r: Result<NewRecord, VaultError>)
        ensures
            r is Ok <==> field_encryptable(password.spec_bytes()),
            r matches Ok(rec) ==> {
                &&& rec.service@ == service@
                &&& rec.email@ == email@
                &&& rec.username@ == username@
                &&& rec.notes@ == notes@
                &&& is_sealed_field(self.key(), password.spec_bytes(), rec.password@)
                &&& field_opened(self.key(), rec.password@) == Some(password@)
                &&& field_has_length(rec.password@, password.spec_bytes().len())
                &&& rec.password@ != password@
            },
            r matches Err(e) ==> e == VaultError::EncryptionFailed,
    {
        let encrypted_password = self.encrypt_field(password)?;
        Ok(
            NewRecord {
                service: service.to_owned(),
                email: email.to_owned(),
                username: username.to_owned(),
                password: encrypted_password,
                notes: notes.to_owned(),
            },
        )
    }

    /// The row that replaces credential `record_id`: every field as given, but the
    /// password, which is encrypted afresh by `encrypt_field`.
    pub fn update_entry(
        &self,
        record_id: i32,
        service: &str,
        email: &str,
        username: &str,
        password: &str,
        notes: &str,
    ) -> (r: Result<Record, VaultError>)
        ensures
            r is Ok <==> field_encryptable(password.spec_bytes()),
            r matches Ok(rec) ==> {
                &&& rec.id == record_id
                &&& rec.service@ == service@
                &&& rec.email@ == email@
                &&& rec.username@ == username@
                &&& rec.notes@ == notes@
                &&& is_sealed_field(self.key(), password.spec_bytes(), rec.password@)
                &&& field_opened(self.key(), rec.password@) == Some(password@)
                &&& field_has_length(rec.password@, password.spec_bytes().len())
                &&& rec.password@ != password@
            },
            r matches Err(e) ==> e == VaultError::EncryptionFailed,
    {
        let encrypted_password = self.encrypt_field(password)?;
        Ok(
            Record {
                id: record_id,
                service: service.to_owned(),
                email: email.to_owned(),
                username: username.to_owned(),
                password: encrypted_password,
                notes: notes.to_owned(),
            },
        )
    }
}

} // verus!
