//! Authenticated encryption with ChaCha20-Poly1305.

use chacha20poly1305::aead::{Aead, KeyInit};
use vstd::prelude::*;

verus! {

/// What ChaCha20-Poly1305 produces when it encrypts `pt` under `key` and `nonce`, with
/// no associated data: the ciphertext followed by the 16-byte tag.
pub uninterp spec fn aead_seal(key: Seq<u8>, nonce: Seq<u8>, pt: Seq<u8>) -> Seq<u8>;

/// Length of a key in bytes.
pub const AEAD_KEY_LEN: usize = 32;

/// Length of a nonce in bytes.
pub const NONCE_LEN: usize = 12;

/// Length of the authentication tag in bytes.
pub const TAG_LEN: usize = 16;

/// Plaintexts must be shorter than this (64-byte blocks, fewer than 2^32 - 1 of them).
pub const MAX_PLAINTEXT_LEN: u64 = 274_877_906_880;

/// A plaintext short enough to be encrypted.
pub open spec fn sealable(pt: Seq<u8>) -> bool {
    pt.len() < MAX_PLAINTEXT_LEN
}

/// `ct` is what encrypting some sealable plaintext under `key` and `nonce` gives.
pub open spec fn is_sealed(key: Seq<u8>, nonce: Seq<u8>, ct: Seq<u8>) -> bool {
    exists|m: Seq<u8>| sealable(m) && #[trigger] aead_seal(key, nonce, m) == ct
}

/// What decrypting `ct` under `key` and `nonce` gives: the plaintext whose
/// encryption is `ct`, or `None` where there is none.
pub open spec fn aead_opened(key: Seq<u8>, nonce: Seq<u8>, ct: Seq<u8>) -> Option<Seq<u8>> {
    if is_sealed(key, nonce, ct) {
        Some(choose|m: Seq<u8>| sealable(m) && #[trigger] aead_seal(key, nonce, m) == ct)
    } else {
        None
    }
}

/// No other sealable plaintext encrypts to `ct` under `key` and `nonce`.
pub open spec fn sealed_only_from(key: Seq<u8>, nonce: Seq<u8>, ct: Seq<u8>, pt: Seq<u8>) -> bool {
    forall|m: Seq<u8>| sealable(m) && #[trigger] aead_seal(key, nonce, m) == ct ==> m == pt
}

/// The body of `ct` (all of it but the tag) determines the plaintext: no other sealable
/// plaintext encrypts to a ciphertext of the same length with the same body.
pub open spec fn body_determines(key: Seq<u8>, nonce: Seq<u8>, ct: Seq<u8>, pt: Seq<u8>) -> bool {
    forall|m: Seq<u8>|
        sealable(m) && (#[trigger] aead_seal(key, nonce, m)).len() == ct.len() && aead_seal(
            key,
            nonce,
            m,
        ).take(ct.len() - TAG_LEN) == ct.take(ct.len() - TAG_LEN) ==> m == pt
}

/// Relies on `ChaCha20Poly1305::encrypt` (through `Key::from_slice` and
/// `Nonce::from_slice`, which need 32 and 12 bytes): it fails exactly on plaintexts of
/// 2^32 - 1 blocks of 64 bytes or more; otherwise it returns the plaintext XORed with
/// a key stream that depends on the key and nonce alone, followed by the 16-byte tag, so
/// distinct plaintexts give distinct ciphertexts, and distinct bodies.
#[verifier::external_body]
pub(crate) fn seal(key: &[u8], nonce: &[u8], pt: &[u8]) -> (r: Option<Vec<u8>>)
    requires
        key@.len() == AEAD_KEY_LEN,
        nonce@.len() == NONCE_LEN,
    ensures
        r is Some <==> sealable(pt@),
        r matches Some(c) ==> {
            &&& c@ == aead_seal(key@, nonce@, pt@)
            &&& c@.len() == pt@.len() + TAG_LEN
            &&& sealed_only_from(key@, nonce@, c@, pt@)
            &&& body_determines(key@, nonce@, c@, pt@)
        },
{
    let cipher = chacha20poly1305::ChaCha20Poly1305::new(chacha20poly1305::Key::from_slice(key));
    cipher.encrypt(chacha20poly1305::Nonce::from_slice(nonce), pt).ok()
}

/// Relies on `ChaCha20Poly1305::decrypt` (through `Key::from_slice` and
/// `Nonce::from_slice`, which need 32 and 12 bytes): it recomputes the tag over the
/// ciphertext and releases the plaintext only where the tag matches, so it succeeds
/// exactly on what `encrypt` produces under the same key and nonce, and then returns
/// the plaintext that was encrypted, 16 bytes shorter than the ciphertext. A ciphertext
/// shorter than a tag is refused.
#[verifier::external_body]
pub(crate) fn open(key: &[u8], nonce: &[u8], ct: &[u8]) -> (r: Option<Vec<u8>>)
    requires
        key@.len() == AEAD_KEY_LEN,
        nonce@.len() == NONCE_LEN,
    ensures
        r is None ==> !is_sealed(key@, nonce@, ct@),
        ct@.len() < TAG_LEN ==> r is None,
        r matches Some(m) ==> {
            &&& sealable(m@)
            &&& m@.len() + TAG_LEN == ct@.len()
            &&& aead_seal(key@, nonce@, m@) == ct@
            &&& sealed_only_from(key@, nonce@, ct@, m@)
        },
{
    let cipher = chacha20poly1305::ChaCha20Poly1305::new(chacha20poly1305::Key::from_slice(key));
    cipher.decrypt(chacha20poly1305::Nonce::from_slice(nonce), ct).ok()
}

/// A plaintext that decryption hands out is authentic: encrypting it again under the
/// same key and nonce gives back exactly the ciphertext that was decrypted. So a
/// ciphertext that differs from the encryption of `pt` never decrypts to `pt`.
pub proof fn lemma_opened_is_authentic(key: Seq<u8>, nonce: Seq<u8>, ct: Seq<u8>, pt: Seq<u8>)
    ensures
        aead_opened(key, nonce, ct) == Some(pt) ==> aead_seal(key, nonce, pt) == ct,
        sealable(pt) && ct != aead_seal(key, nonce, pt) ==> aead_opened(key, nonce, ct) != Some(pt),
{
}

/// Changing the tag of a ciphertext that encryption produced, and nothing else, makes
/// it fail to decrypt: the unchanged body fixes the plaintext, and with it the only tag
/// that decryption accepts.
pub proof fn lemma_tag_tampering_detected(key: Seq<u8>, nonce: Seq<u8>, pt: Seq<u8>, ct2: Seq<u8>)
    requires
        sealable(pt),
        aead_seal(key, nonce, pt).len() == pt.len() + TAG_LEN,
        body_determines(key, nonce, aead_seal(key, nonce, pt), pt),
        ct2.len() == pt.len() + TAG_LEN,
        ct2.take(pt.len() as int) == aead_seal(key, nonce, pt).take(pt.len() as int),
        ct2 != aead_seal(key, nonce, pt),
    ensures
        aead_opened(key, nonce, ct2) is None,
{
    if is_sealed(key, nonce, ct2) {
        let m = choose|m: Seq<u8>| sealable(m) && #[trigger] aead_seal(key, nonce, m) == ct2;
        assert(m == pt);
    }
}

} // verus!
