//! Randomness (rand) and hashing (sha2) used to mint identifiers.

use vstd::prelude::*;
use rand::Rng;
use sha2::Digest;

verus! {

/// A random `u32` from the thread-local generator (rand's `random`).
/// Nothing is claimed of it.
#[verifier::external_body]
pub(crate) fn random_u32() -> (r: u32) {
    rand::random::<u32>()
}

/// Sixteen random bytes from the thread-local generator (rand's
/// `thread_rng().gen()`). Only their number is claimed.
#[verifier::external_body]
pub(crate) fn random_bytes16() -> (r: Vec<u8>)
    ensures
        r@.len() == 16,
{
    let bytes: [u8; 16] = rand::thread_rng().gen();
    bytes.to_vec()
}

/// The SHA-256 digest of a byte sequence.
pub uninterp spec fn sha256(data: Seq<u8>) -> Seq<u8>;

/// The SHA-256 digest of `data` (sha2's `Sha256::digest`): the named digest
/// of the bytes, 32 bytes long.
#[verifier::external_body]
pub(crate) fn sha256_digest(data: &[u8]) -> (r: Vec<u8>)
    ensures
        r@ == sha256(data@),
        r@.len() == 32,
{
    sha2::Sha256::digest(data).to_vec()
}

} // verus!
