//! Content digests of uploaded files, computed with BLAKE3.

use vstd::prelude::*;

verus! {

#[verifier::external_type_specification]
#[verifier::external_body]
pub struct ExHasher(blake3::Hasher);

/// The bytes fed so far into a BLAKE3 hashing state, in order.
pub uninterp spec fn hashed_input(h: blake3::Hasher) -> Seq<u8>;

/// The 32-byte BLAKE3 digest of a byte sequence.
pub uninterp spec fn blake3_digest(input: Seq<u8>) -> Seq<u8>;

/// Relies on blake3::Hasher::new: a fresh state has absorbed nothing.
#[verifier::external_body]
pub(crate) fn new_hasher() -> (h: blake3::Hasher)
    ensures
        hashed_input(h) == Seq::<u8>::empty(),
{
    blake3::Hasher::new()
}

/// Relies on blake3::Hasher::update: the input is appended to what the state
/// has absorbed.
#[verifier::external_body]
pub(crate) fn absorb(h: &mut blake3::Hasher, input: &[u8])
    ensures
        hashed_input(*final(h)) == hashed_input(*old(h)) + input@,
{
    h.update(input);
}

/// Relies on blake3::Hasher::finalize: the digest of everything absorbed,
/// equal to the one-shot hash of those bytes; the state is left unchanged.
#[verifier::external_body]
pub(crate) fn digest_of(h: &blake3::Hasher) -> (r: [u8; 32])
    ensures
        r@ == blake3_digest(hashed_input(*h)),
{
    h.finalize().into()
}

} // verus!
