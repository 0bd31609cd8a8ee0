//! First-run initialisation of a vault, and unlocking it with the passphrase.

use crate::aead::{aead_opened, NONCE_LEN, TAG_LEN};
use crate::cryptography::{CryptEngine, SALT_LENGTH};
use crate::erase::wipe;
use crate::error::VaultError;
use crate::kdf::{derivation_accepts, derived_key, KEY_LEN, MAX_INPUT_LEN};
use crate::models::{MasterRecord, NewMasterRecord};
use crate::session::Session;
use vstd::prelude::*;
use vstd::string::StringSliceAdditionalSpecFns;

verus! {

/// The master key that a master record holds for a passphrase: what its ciphertext
/// decrypts to under the key derived from the passphrase and its salt, where that is a
/// 32-byte key.
pub open spec fn unwrapped_key(pwd: Seq<u8>, salt: Seq<u8>, nonce: Seq<u8>, ct: Seq<u8>) -> Option<
    Seq<u8>,
> {
    if derivation_accepts(pwd, salt) && nonce.len() == NONCE_LEN {
        match aead_opened(derived_key(pwd, salt), nonce, ct) {
            Some(mk) => if mk.len() == KEY_LEN {
                Some(mk)
            } else {
                None
            },
            None => None,
        }
    } else {
        None
    }
}

/// A master record as `bootstrap` makes it for a passphrase: a 32-byte salt, a
/// 12-byte nonce, and a 32-byte master key encrypted under the key derived from the
/// passphrase and the salt.
pub open spec fn wraps_master_key(pwd: Seq<u8>, salt: Seq<u8>, nonce: Seq<u8>, ct: Seq<u8>, mk: Seq<
    u8,
>) -> bool {
    &&& salt.len() == SALT_LENGTH
    &&& nonce.len() == NONCE_LEN
    &&& ct.len() == KEY_LEN + TAG_LEN
    &&& mk.len() == KEY_LEN
    &&& derivation_accepts(pwd, salt)
    &&& aead_opened(derived_key(pwd, salt), nonce, ct) == Some(mk)
}

/// Initialises a vault: draws a salt and a master key, and encrypts the master key
/// under the key derived from the passphrase with a fresh nonce. The derived key and
/// the master key are erased before it returns; the record is what storage keeps.
/// Fails with `Configuration` exactly where the passphrase is too long to derive from.
pub fn bootstrap(passphrase: &str) -> (r: Result<NewMasterRecord, VaultError>)
    ensures
        r is Ok <==> passphrase.spec_bytes().len() <= MAX_INPUT_LEN,
        r matches Ok(m) ==> {
            &&& m.salt@.len() == SALT_LENGTH
            &&& m.nonce@.len() == NONCE_LEN
            &&& m.encrypted_master_key@.len() == KEY_LEN + TAG_LEN
        },
        r matches Ok(m) ==> exists|mk: Seq<u8>|
            #[trigger] wraps_master_key(
                passphrase.spec_bytes(),
                m.salt@,
                m.nonce@,
                m.encrypted_master_key@,
                mk,
            ),
        r matches Err(e) ==> e == VaultError::Configuration,
{
    let salt = CryptEngine::generate_salt();
    let engine = match CryptEngine::new(passphrase, salt.as_slice()) {
        Ok(engine) => engine,
        Err(e) => return Err(e),
    };
    let mut master_key = CryptEngine::generate_master_key();
    let ghost mk = master_key@;
    let (nonce, ciphertext) = match engine.encrypt_master_key(master_key.as_slice()) {
        Ok(pair) => pair,
        Err(e) => {
            wipe(&mut master_key);
            return Err(e);
        },
    };
    wipe(&mut master_key);
    let record = NewMasterRecord { encrypted_master_key: ciphertext, nonce, salt };
    assert(wraps_master_key(
        passphrase.spec_bytes(),
        record.salt@,
        record.nonce@,
        record.encrypted_master_key@,
        mk,
    ));
    Ok(record)
}

/// Unlocks a vault: derives the key from the passphrase and the record's salt and
/// decrypts the master key with it. On success the session holds the master key; on
/// any failure the result is `AuthenticationFailed`, with no further detail. The
/// record's bytes and the derived key are erased either way.
pub fn unlock(passphrase: &str, record: MasterRecord) -> (r: Result<Session, VaultError>)
    ensures
        r is Ok <==> unwrapped_key(
            passphrase.spec_bytes(),
            record.salt@,
            record.nonce@,
            record.encrypted_master_key@,
        ) is Some,
        r matches Ok(s) ==> Some(s.key()) == unwrapped_key(
            passphrase.spec_bytes(),
            record.salt@,
            record.nonce@,
            record.encrypted_master_key@,
        ),
        r matches Err(e) ==> e == VaultError::AuthenticationFailed,
{
    let mut record = record;
    let opened = match CryptEngine::new(passphrase, record.salt.as_slice()) {
        Ok(engine) => engine.decrypt_master_key(record.nonce.as_slice(), record.encrypted_master_key.as_slice()),
        Err(_) => Err(VaultError::AuthenticationFailed),
    };
    wipe(&mut record.encrypted_master_key);
    wipe(&mut record.nonce);
    wipe(&mut record.salt);
    match opened {
        Ok(master_key) => {
            if master_key.len() == KEY_LEN {
                Ok(Session::new(master_key))
            } else {
                let mut master_key = master_key;
                wipe(&mut master_key);
                Err(VaultError::AuthenticationFailed)
            }
        },
        Err(_) => Err(VaultError::AuthenticationFailed),
    }
}

/// A vault that `bootstrap` made with a passphrase unlocks with that passphrase, and
/// the session it gives holds exactly the master key that was wrapped.
pub proof fn lemma_unlock_after_bootstrap(
    pwd: Seq<u8>,
    salt: Seq<u8>,
    nonce: Seq<u8>,
    ct: Seq<u8>,
    mk: Seq<u8>,
)
    requires
        wraps_master_key(pwd, salt, nonce, ct, mk),
    ensures
        unwrapped_key(pwd, salt, nonce, ct) == Some(mk),
{
}

} // verus!
