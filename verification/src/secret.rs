//! Erasing buffers that held secret bytes.
//!
//! Every buffer that a signature, a seed or a serialised private key passed
//! through is overwritten before it is released. The overwriting itself is
//! done by the `zeroize` crate, whose writes the compiler may not remove.

use vstd::prelude::*;
use zeroize::Zeroize;

verus! {

/// Thirty-two zero bytes: what an erased seed holds, and the mark of a seed
/// that has not been derived yet.
pub open spec fn zero_seed() -> Seq<u8> {
    Seq::new(32, |i: int| 0u8)
}

/// `Vec<u8>::zeroize` of the `zeroize` crate: it overwrites the elements and the
/// spare capacity with zeros and leaves the vector empty.
#[verifier::external_body]
pub(crate) fn zeroize_bytes(bytes: &mut Vec<u8>)
    ensures
        final(bytes)@ == Seq::<u8>::empty(),
    opens_invariants none
    no_unwind
{
    bytes.zeroize();
}

/// `Option<Vec<u8>>::zeroize` of the `zeroize` crate: it erases the vector, if
/// there is one, and leaves `None`.
#[verifier::external_body]
pub(crate) fn zeroize_optional_bytes(bytes: &mut Option<Vec<u8>>)
    ensures
        final(bytes).is_none(),
    opens_invariants none
    no_unwind
{
    bytes.zeroize();
}

/// `String::zeroize` of the `zeroize` crate: it overwrites the bytes of the
/// string with zeros and leaves the string empty.
#[verifier::external_body]
pub(crate) fn zeroize_text(text: &mut String)
    ensures
        final(text)@ == Seq::<char>::empty(),
    opens_invariants none
    no_unwind
{
    text.zeroize();
}

/// `<[u8; 32]>::zeroize` of the `zeroize` crate: it overwrites every element
/// with zero.
#[verifier::external_body]
pub(crate) fn zeroize_seed(seed: &mut [u8; 32])
    ensures
        final(seed)@ == zero_seed(),
    opens_invariants none
    no_unwind
{
    seed.zeroize();
}

/// Whether `seed` is the all-zero mark of a seed that was never derived.
pub fn is_zero_seed(seed: &[u8; 32]) -> (zero: bool)
    ensures
        zero == (seed@ == zero_seed()),
{
    let mut i: usize = 0;
    while i < 32
        invariant
            i <= 32,
            forall|j: int| 0 <= j < i ==> seed@[j] == 0u8,
        decreases 32 - i,
    {
        if seed[i] != 0 {
            return false;
        }
        i += 1;
    }
    assert(seed@ =~= zero_seed());
    true
}

} // verus!
