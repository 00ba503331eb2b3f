//! The BLAKE2s-256 hasher of the `blake2` crate, as an accumulator of bytes.
//!
//! Nothing here is proved: each function states what the hasher is trusted to
//! do, in terms of the bytes it has been fed so far and of the digest of a
//! whole byte string.

use vstd::prelude::*;

verus! {

/// A running BLAKE2s-256 computation. The state of the outside hasher is
/// hidden from the verifier; `absorbed` stands for what it has been fed.
#[verifier::external_body]
pub struct Blake2sHasher {
    state: blake2::Blake2s256,
}

/// The bytes that a hasher has been fed since it was created, in order.
pub uninterp spec fn absorbed(hasher: Blake2sHasher) -> Seq<u8>;

/// The BLAKE2s-256 digest of a byte string.
pub uninterp spec fn blake2s256(data: Seq<u8>) -> Seq<u8>;

/// `Digest::new`: a hasher that has been fed nothing yet.
#[verifier::external_body]
pub(crate) fn hasher_new() -> (hasher: Blake2sHasher)
    ensures
        absorbed(hasher) == Seq::<u8>::empty(),
{
    Blake2sHasher { state: <blake2::Blake2s256 as blake2::Digest>::new() }
}

/// `Digest::update`: feeds `data` to the hasher, after what it already holds.
#[verifier::external_body]
pub(crate) fn hasher_update(hasher: &mut Blake2sHasher, data: &[u8])
    ensures
        absorbed(*final(hasher)) == absorbed(*old(hasher)) + data@,
{
    blake2::Digest::update(&mut hasher.state, data);
}

/// `Digest::finalize`: the digest of everything the hasher has been fed.
#[verifier::external_body]
pub(crate) fn hasher_finalize(hasher: Blake2sHasher) -> (digest: [u8; 32])
    ensures
        digest@ == blake2s256(absorbed(hasher)),
{
    blake2::Digest::finalize(hasher.state).into()
}

} // verus!
