//! Why a submission, or a merge into a bucket, is rejected.

use vstd::prelude::*;

verus! {

/// The three ways in which handling an attestation fails. None of them is
/// retried.
#[derive(Clone, Copy, Debug, PartialEq, Eq, Structural)]
pub enum AttestationError {
    /// The signature is no signature by the validator over the digest of the
    /// claim, or its bytes stand for no signature at all.
    InvalidSignature,
    /// The aggregate signature that a stored bucket holds cannot be read
    /// back. This is a fault in the stored data: the bucket exists.
    MalformedStoredSignature,
    /// The store could not take what was to be written.
    StorageFailure,
}

} // verus!
