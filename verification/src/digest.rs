//! The digest of a message: the SHA3-256 hash of its canonical layout.
//! Signatures are made and checked over the digest, never over the message
//! itself.

use crate::encoding::Encode;
use sha3::Digest;
use vstd::prelude::*;

verus! {

/// The SHA3-256 hash of `data`.
pub uninterp spec fn sha3_256_hash(data: Seq<u8>) -> Seq<u8>;

/// A digest of thirty-two bytes.
#[derive(Clone, Copy, Debug, PartialEq, Eq)]
pub struct Hash256(pub [u8; 32]);

impl View for Hash256 {
    type V = Seq<u8>;

    open spec fn view(&self) -> Seq<u8> {
        self.0@
    }
}

impl Hash256 {
    /// The bytes of the digest.
    pub fn as_bytes(&self) -> (bytes: &[u8])
        ensures
            bytes@ == self@,
            bytes@.len() == 32,
    {
        self.0.as_slice()
    }
}

/// Calls `sha3::Sha3_256::digest`, which hashes `data` in one step and
/// returns the thirty-two bytes of the hash; the result names that hash.
#[verifier::external_body]
fn sha3_256(data: &[u8]) -> (hash: [u8; 32])
    ensures
        hash@ == sha3_256_hash(data@),
{
    sha3::Sha3_256::digest(data).into()
}

/// The digest of `message`.
pub fn get_message_digest<T: Encode>(message: &T) -> (digest: Hash256)
    ensures
        digest@ == sha3_256_hash(message.ssz_bytes()),
{
    let message_ssz = message.as_ssz_bytes();
    Hash256(sha3_256(message_ssz.as_slice()))
}

/// Messages with one layout have one digest.
pub proof fn digest_is_deterministic<T: Encode>(a: T, b: T)
    requires
        a.ssz_bytes() == b.ssz_bytes(),
    ensures
        sha3_256_hash(a.ssz_bytes()) == sha3_256_hash(b.ssz_bytes()),
{
}

} // verus!
