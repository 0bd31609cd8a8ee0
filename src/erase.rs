//! Erasure of secret bytes.

use zeroize::Zeroize;
use vstd::prelude::*;

verus! {

/// Relies on `zeroize::Zeroize::zeroize` for byte slices: it overwrites every element
/// with zero (by volatile writes that the compiler keeps) and leaves the length as it was.
#[verifier::external_body]
pub(crate) fn wipe(v: &mut Vec<u8>)
    ensures
        final(v)@ == Seq::new(old(v)@.len(), |i: int| 0u8),
    opens_invariants none
    no_unwind
{
    v.as_mut_slice().zeroize();
}

} // verus!
