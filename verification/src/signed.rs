//! Claims together with the signature that vouches for them, and the check
//! of that signature.

use crate::bls::{bls_signature_decodes, bls_verifies, PublicKey, Signature, SIGNATURE_DOMAIN};
use crate::digest::{get_message_digest, sha3_256_hash};
use crate::encoding::{Encode, IntervalInclusionMessage, PriceValueMessage};
use vstd::prelude::*;

verus! {

/// A price value claim and the validator's signature over its digest.
#[derive(Debug, PartialEq, Eq)]
pub struct SignedPriceValueMessage {
    pub message: PriceValueMessage,
    pub signature: Signature,
}

/// An interval inclusion claim and the validator's signature over its
/// digest.
#[derive(Debug, PartialEq, Eq)]
pub struct SignedIntervalInclusionMessage {
    pub message: IntervalInclusionMessage,
    pub signature: Signature,
}

/// What one validator submits at once: one price value claim, any number of
/// interval inclusion claims, and the key that all of them are signed with.
#[derive(Debug, PartialEq, Eq)]
pub struct OracleMessage {
    pub value_message: SignedPriceValueMessage,
    pub interval_inclusion_messages: Vec<SignedIntervalInclusionMessage>,
    pub validator_public_key: PublicKey,
}

/// A signed price value claim, with the signature as its bytes.
pub struct SignedPriceValueMessageView {
    pub message: PriceValueMessage,
    pub signature: Seq<u8>,
}

/// A signed interval inclusion claim, with the signature as its bytes.
pub struct SignedIntervalInclusionMessageView {
    pub message: IntervalInclusionMessage,
    pub signature: Seq<u8>,
}

/// A submission, with the key and the signatures as their bytes.
pub struct OracleMessageView {
    pub value_message: SignedPriceValueMessageView,
    pub interval_inclusion_messages: Seq<SignedIntervalInclusionMessageView>,
    pub validator_public_key: Seq<u8>,
}

impl View for SignedPriceValueMessage {
    type V = SignedPriceValueMessageView;

    open spec fn view(&self) -> SignedPriceValueMessageView {
        SignedPriceValueMessageView { message: self.message, signature: self.signature@ }
    }
}

impl View for SignedIntervalInclusionMessage {
    type V = SignedIntervalInclusionMessageView;

    open spec fn view(&self) -> SignedIntervalInclusionMessageView {
        SignedIntervalInclusionMessageView { message: self.message, signature: self.signature@ }
    }
}

impl View for OracleMessage {
    type V = OracleMessageView;

    open spec fn view(&self) -> OracleMessageView {
        OracleMessageView {
            value_message: self.value_message@,
            interval_inclusion_messages: self.interval_inclusion_messages@.map_values(
                |m: SignedIntervalInclusionMessage| m@,
            ),
            validator_public_key: self.validator_public_key@,
        }
    }
}

impl Clone for SignedPriceValueMessage {
    fn clone(&self) -> (copy: Self)
        ensures
            copy@ == self@,
    {
        SignedPriceValueMessage { message: self.message, signature: self.signature.clone() }
    }
}

impl Clone for SignedIntervalInclusionMessage {
    fn clone(&self) -> (copy: Self)
        ensures
            copy@ == self@,
    {
        SignedIntervalInclusionMessage { message: self.message, signature: self.signature.clone() }
    }
}

/// Whether `signature` is a signature by `public_key` over the digest of
/// `message`.
pub open spec fn is_valid<T: Encode>(public_key: Seq<u8>, message: T, signature: Seq<u8>) -> bool {
    bls_verifies(public_key, sha3_256_hash(message.ssz_bytes()), SIGNATURE_DOMAIN@, signature)
}

/// Checks `signature` against `public_key` and the digest of `message`.
/// A signature that passes decodes.
pub fn validate_message<T: Encode>(
    public_key: &PublicKey,
    message: &T,
    signature: &Signature,
) -> (ok: bool)
    ensures
        ok == is_valid(public_key@, *message, signature@),
        ok ==> bls_signature_decodes(signature@),
{
    let message_digest = get_message_digest(message);
    signature.verify(public_key, &message_digest)
}

} // verus!
