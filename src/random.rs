//! Randomness from the operating system and from a thread-local generator.

use rand::seq::SliceRandom;
use rand::Rng;
use rand_core::RngCore;
use vstd::prelude::*;

verus! {

/// Relies on `rand_core::OsRng::fill_bytes` (rand_core 0.6, the generator that argon2
/// re-exports): it overwrites every byte of the buffer with bytes from the operating
/// system and leaves its length as it was. It panics only where the operating system
/// cannot supply random bytes.
#[verifier::external_body]
pub(crate) fn fill_random(buf: &mut Vec<u8>)
    ensures
        final(buf)@.len() == old(buf)@.len(),
{
    argon2::password_hash::rand_core::OsRng.fill_bytes(buf.as_mut_slice());
}

/// Relies on `rand::Rng::random_range` on the thread-local generator of `rand::rng`:
/// it returns a value of the half-open range, which must not be empty.
#[verifier::external_body]
pub(crate) fn random_below(lo: usize, hi: usize) -> (r: usize)
    requires
        lo < hi,
    ensures
        lo <= r < hi,
{
    rand::rng().random_range(lo..hi)
}

/// Relies on `rand::seq::SliceRandom::shuffle` with the thread-local generator: it
/// permutes the elements in place.
#[verifier::external_body]
pub(crate) fn shuffle(v: &mut Vec<u8>)
    ensures
        final(v)@.to_multiset() == old(v)@.to_multiset(),
        final(v)@.len() == old(v)@.len(),
{
    v.as_mut_slice().shuffle(&mut rand::rng());
}

/// `len` fresh random bytes from the operating system.
pub fn random_bytes(len: usize) -> (r: Vec<u8>)
    ensures
        r@.len() == len,
{
    let mut buf: Vec<u8> = Vec::new();
    let mut i: usize = 0;
    while i < len
        invariant
            i <= len,
            buf@.len() == i,
        decreases len - i,
    {
        buf.push(0u8);
        i = i + 1;
    }
    fill_random(&mut buf);
    buf
}

} // verus!
