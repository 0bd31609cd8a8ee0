//! Text encodings: standard base64 for stored ciphertexts, UTF-8 for plaintexts.

use base64::Engine;
use vstd::prelude::*;
use vstd::utf8::{decode_utf8, valid_utf8};

verus! {

/// The standard, padded base64 text of `b`.
pub uninterp spec fn base64_text(b: Seq<u8>) -> Seq<char>;

/// `s` is the base64 text of some byte sequence.
pub open spec fn is_base64(s: Seq<char>) -> bool {
    exists|b: Seq<u8>| #[trigger] base64_text(b) == s
}

/// The bytes whose base64 text is `s`, or `None` where `s` is no such text.
pub open spec fn base64_decoded(s: Seq<char>) -> Option<Seq<u8>> {
    if is_base64(s) {
        Some(choose|b: Seq<u8>| #[trigger] base64_text(b) == s)
    } else {
        None
    }
}

/// No other byte sequence has `s` as its base64 text.
pub open spec fn base64_only_from(s: Seq<char>, b: Seq<u8>) -> bool {
    forall|b2: Seq<u8>| #[trigger] base64_text(b2) == s ==> b2 == b
}

/// Longest input that `to_base64` takes: its text length must fit in `usize`.
pub const MAX_BASE64_INPUT: usize = usize::MAX / 2;

/// Relies on `base64::engine::general_purpose::STANDARD.encode`: the padded standard
/// encoding, a function of the bytes alone, from which the bytes can be read back. It
/// writes four ASCII characters for each started group of three bytes.
#[verifier::external_body]
pub(crate) fn to_base64(b: &[u8]) -> (r: String)
    requires
        b@.len() <= MAX_BASE64_INPUT,
    ensures
        r@ == base64_text(b@),
        base64_only_from(r@, b@),
        r@.len() == 4 * ((b@.len() + 2) / 3),
{
    base64::engine::general_purpose::STANDARD.encode(b)
}

/// Relies on `base64::engine::general_purpose::STANDARD.decode`: with padding
/// required in canonical form and no trailing bits allowed, it accepts exactly the
/// texts that `encode` produces and returns the bytes they encode.
#[verifier::external_body]
pub(crate) fn from_base64(s: &str) -> (r: Option<Vec<u8>>)
    ensures
        r is None ==> !is_base64(s@),
        r matches Some(b) ==> base64_text(b@) == s@ && base64_only_from(s@, b@),
{
    base64::engine::general_purpose::STANDARD.decode(s).ok()
}

/// Relies on `String::from_utf8`: it succeeds exactly on valid UTF-8 and then holds
/// the characters that the bytes encode.
#[verifier::external_body]
pub(crate) fn string_from_utf8(b: Vec<u8>) -> (r: Option<String>)
    ensures
        r is Some <==> valid_utf8(b@),
        r matches Some(s) ==> s@ == decode_utf8(b@),
{
    String::from_utf8(b).ok()
}

} // verus!
