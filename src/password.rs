//! Random passwords drawn from a fixed alphabet of letters, digits and symbols.

use crate::cryptography::CryptEngine;
use crate::encoding::string_from_utf8;
use crate::random::{random_below, shuffle};
use vstd::prelude::*;
use vstd::utf8::{decode_utf8, valid_utf8};

verus! {

/// Length of a generated password.
pub const PASSWORD_LENGTH: usize = 32;

/// Number of characters in the alphabet: 26 upper case letters, 26 lower case
/// letters, 10 digits and 26 symbols, in that order.
pub const CHARSET_LEN: usize = 88;

/// The symbols of the alphabet, as ASCII codes: `!@#$%^&*()_+-=[]{}|;:,.<>?`.
pub open spec fn symbols() -> Seq<u8> {
    seq![
        33u8, 64, 35, 36, 37, 94, 38, 42, 40, 41, 95, 43, 45, 61, 91, 93, 123, 125, 124, 59, 58,
        44, 46, 60, 62, 63,
    ]
}

/// The character at position `i` of the alphabet.
pub open spec fn charset_at(i: int) -> u8 {
    if i < 26 {
        (65 + i) as u8
    } else if i < 52 {
        (97 + (i - 26)) as u8
    } else if i < 62 {
        (48 + (i - 52)) as u8
    } else {
        symbols()[i - 62]
    }
}

/// An upper case ASCII letter.
pub open spec fn is_upper(c: u32) -> bool {
    65 <= c <= 90
}

/// A lower case ASCII letter.
pub open spec fn is_lower(c: u32) -> bool {
    97 <= c <= 122
}

/// An ASCII digit.
pub open spec fn is_digit(c: u32) -> bool {
    48 <= c <= 57
}

/// One of the alphabet's symbols.
pub open spec fn is_symbol(c: u32) -> bool {
    exists|j: int| 0 <= j < 26 && symbols()[j] as u32 == c
}

/// A character of the alphabet.
pub open spec fn is_password_char(c: u32) -> bool {
    is_upper(c) || is_lower(c) || is_digit(c) || is_symbol(c)
}

/// A password as `generate_random_password` makes them: of the fixed length, drawn from
/// the alphabet, with at least one character of each of the four classes.
pub open spec fn is_generated_password(p: Seq<char>) -> bool {
    &&& p.len() == PASSWORD_LENGTH
    &&& forall|i: int| 0 <= i < p.len() ==> is_password_char(#[trigger] p[i] as u32)
    &&& exists|i: int| 0 <= i < p.len() && is_upper(#[trigger] p[i] as u32)
    &&& exists|i: int| 0 <= i < p.len() && is_lower(#[trigger] p[i] as u32)
    &&& exists|i: int| 0 <= i < p.len() && is_digit(#[trigger] p[i] as u32)
    &&& exists|i: int| 0 <= i < p.len() && is_symbol(#[trigger] p[i] as u32)
}

/// Bytes below 128 are valid UTF-8, and each decodes to the character of that code.
proof fn lemma_ascii_decode(b: Seq<u8>)
    requires
        forall|i: int| 0 <= i < b.len() ==> #[trigger] b[i] < 128,
    ensures
        valid_utf8(b),
        decode_utf8(b).len() == b.len(),
        forall|i: int| 0 <= i < b.len() ==> #[trigger] decode_utf8(b)[i] as u32 == b[i] as u32,
    decreases b.len(),
{
    if b.len() > 0 {
        let rest = b.subrange(1, b.len() as int);
        lemma_ascii_decode(rest);
        let b0 = b[0];
        assert(b0 & 0x7f == b0) by (bit_vector)
            requires
                b0 < 128u8,
        ;
        assert(vstd::utf8::valid_first_scalar(b));
        assert(vstd::utf8::pop_first_scalar(b) == rest);
        assert(valid_utf8(b));
        let c = vstd::utf8::decode_first_scalar(b);
        assert(c == b[0] as u32);
        let d = decode_utf8(b);
        assert(d == seq![c as char] + decode_utf8(rest));
        assert((c as char) as u32 == c);
        assert forall|i: int| 0 <= i < b.len() implies #[trigger] d[i] as u32 == b[i] as u32 by {
            if i > 0 {
                assert(d[i] == decode_utf8(rest)[i - 1]);
                assert(rest[i - 1] == b[i]);
            }
        }
    }
}

/// The character at position `i` of the alphabet.
fn charset_byte(i: usize) -> (b: u8)
    requires
        i < CHARSET_LEN,
    ensures
        b == charset_at(i as int),
        b < 128,
        is_password_char(b as u32),
        i < 26 ==> is_upper(b as u32),
        26 <= i < 52 ==> is_lower(b as u32),
        52 <= i < 62 ==> is_digit(b as u32),
        62 <= i ==> is_symbol(b as u32),
{
    if i < 26 {
        (65 + i) as u8
    } else if i < 52 {
        (97 + (i - 26)) as u8
    } else if i < 62 {
        (48 + (i - 52)) as u8
    } else {
        let table: Vec<u8> = vec![
            33u8, 64, 35, 36, 37, 94, 38, 42, 40, 41, 95, 43, 45, 61, 91, 93, 123, 125, 124, 59,
            58, 44, 46, 60, 62, 63,
        ];
        assert(table@ == symbols());
        proof {
            let j = i - 62;
            assert(symbols()[j as int] as u32 == table[j as int] as u32);
        }
        table[i - 62]
    }
}

impl CryptEngine {
    /// A fresh random password: 32 characters of the alphabet in random order, with at
    /// least one upper case letter, one lower case letter, one digit and one symbol.
    pub fn generate_random_password() -> (r: String)
        ensures
            is_generated_password(r@),
    {
        let mut bytes: Vec<u8> = Vec::new();
        bytes.push(charset_byte(random_below(0, 26)));
        bytes.push(charset_byte(random_below(26, 52)));
        bytes.push(charset_byte(random_below(52, 62)));
        bytes.push(charset_byte(random_below(62, CHARSET_LEN)));
        let mut i: usize = 4;
        while i < PASSWORD_LENGTH
            invariant
                4 <= i <= PASSWORD_LENGTH,
                bytes@.len() == i,
                forall|k: int|
                    0 <= k < i ==> #[trigger] bytes@[k] < 128 && is_password_char(bytes@[k] as u32),
                is_upper(bytes@[0] as u32),
                is_lower(bytes@[1] as u32),
                is_digit(bytes@[2] as u32),
                is_symbol(bytes@[3] as u32),
            decreases PASSWORD_LENGTH - i,
        {
            bytes.push(charset_byte(random_below(0, CHARSET_LEN)));
            i = i + 1;
        }
        let ghost drawn = bytes@;
        shuffle(&mut bytes);
        proof {
            broadcast use vstd::seq_lib::group_to_multiset_ensures;

            let mixed = bytes@;
            assert forall|k: int| 0 <= k < mixed.len() implies #[trigger] mixed[k] < 128
                && is_password_char(mixed[k] as u32) by {
                assert(mixed.contains(mixed[k]));
                assert(mixed.to_multiset().count(mixed[k]) > 0);
                assert(drawn.to_multiset().count(mixed[k]) > 0);
                assert(drawn.contains(mixed[k]));
            }
            assert forall|k: int| 0 <= k < 4 implies mixed.contains(#[trigger] drawn[k]) by {
                assert(drawn.contains(drawn[k]));
                assert(drawn.to_multiset().count(drawn[k]) > 0);
                assert(mixed.to_multiset().count(drawn[k]) > 0);
            }
            lemma_ascii_decode(mixed);
            let text = decode_utf8(mixed);
            let (a, b, c, d) = (
                mixed.index_of(drawn[0]),
                mixed.index_of(drawn[1]),
                mixed.index_of(drawn[2]),
                mixed.index_of(drawn[3]),
            );
            assert(is_upper(text[a] as u32));
            assert(is_lower(text[b] as u32));
            assert(is_digit(text[c] as u32));
            assert(is_symbol(text[d] as u32));
            assert forall|k: int| 0 <= k < text.len() implies is_password_char(
                #[trigger] text[k] as u32,
            ) by {
                assert(mixed[k] < 128);
            }
        }
        match string_from_utf8(bytes) {
            Some(s) => s,
            None => {
                proof {
                    assert(false);
                }
                String::new()
            },
        }
    }
}

} // verus!
