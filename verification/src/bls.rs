//! BLS12-381 public keys and signatures, held as their compressed bytes.
//!
//! A key is forty-eight bytes and a signature ninety-six. Neither type checks
//! its bytes when it is made: bytes that stand for no curve point verify
//! nothing and cannot be summed.

use crate::digest::Hash256;
use crate::hex::{encode_hex, hex_encoding};
use vstd::prelude::*;

verus! {

/// The ciphersuite under which validators sign.
pub const SIGNATURE_DOMAIN: &'static str = "BLS_SIG_BLS12381G2_XMD:SHA-256_SSWU_RO_POP_";

/// Whether `signature` is a signature by `public_key` over `message` under
/// the ciphersuite `domain`. It is false where either does not decode.
pub uninterp spec fn bls_verifies(
    public_key: Seq<u8>,
    message: Seq<u8>,
    domain: Seq<char>,
    signature: Seq<u8>,
) -> bool;

/// Whether `bytes` are the compressed form of a signature point.
pub uninterp spec fn bls_signature_decodes(bytes: Seq<u8>) -> bool;

/// The compressed form of the sum of the two signature points.
pub uninterp spec fn bls_signature_sum(first: Seq<u8>, second: Seq<u8>) -> Seq<u8>;

/// A validator's public key.
#[derive(Debug, PartialEq, Eq)]
pub struct PublicKey {
    pub bytes: Vec<u8>,
}

/// A signature, of one validator or the sum of several.
#[derive(Debug, PartialEq, Eq)]
pub struct Signature {
    pub bytes: Vec<u8>,
}

impl View for PublicKey {
    type V = Seq<u8>;

    open spec fn view(&self) -> Seq<u8> {
        self.bytes@
    }
}

impl View for Signature {
    type V = Seq<u8>;

    open spec fn view(&self) -> Seq<u8> {
        self.bytes@
    }
}

impl Clone for PublicKey {
    fn clone(&self) -> (copy: Self)
        ensures
            copy@ == self@,
    {
        PublicKey { bytes: self.bytes.clone() }
    }
}

impl Clone for Signature {
    fn clone(&self) -> (copy: Self)
        ensures
            copy@ == self@,
    {
        Signature { bytes: self.bytes.clone() }
    }
}

/// Calls `blst::min_pk::Signature::verify` with the group check of the
/// signature and the validation of the key switched on and no augmentation,
/// on the points that `PublicKey::uncompress` and `Signature::uncompress`
/// read from the bytes. The result is true only where both decode and
/// `verify` reports success, so a signature that verifies decodes.
#[verifier::external_body]
fn blst_verify(public_key: &[u8], message: &[u8], domain: &str, signature: &[u8]) -> (ok: bool)
    ensures
        ok == bls_verifies(public_key@, message@, domain@, signature@),
        ok ==> bls_signature_decodes(signature@),
{
    match (
        blst::min_pk::PublicKey::uncompress(public_key),
        blst::min_pk::Signature::uncompress(signature),
    ) {
        (Ok(key), Ok(point)) => point.verify(true, message, domain.as_bytes(), &[], &key, true)
            == blst::BLST_ERROR::BLST_SUCCESS,
        _ => false,
    }
}

/// Calls `blst::min_pk::Signature::uncompress` and says whether it
/// succeeded.
#[verifier::external_body]
fn blst_signature_decodes(bytes: &[u8]) -> (ok: bool)
    ensures
        ok == bls_signature_decodes(bytes@),
{
    blst::min_pk::Signature::uncompress(bytes).is_ok()
}

/// Calls `blst::min_pk::AggregateSignature::add_signature`, without group
/// check, on the points that `Signature::uncompress` reads from the bytes,
/// and compresses the sum. It fails only where one of the two does not
/// decode. The sum is ninety-six bytes, and decodes again.
#[verifier::external_body]
fn blst_add(first: &[u8], second: &[u8]) -> (sum: Option<Vec<u8>>)
    ensures
        sum is Some <==> (bls_signature_decodes(first@) && bls_signature_decodes(second@)),
        sum is Some ==> sum.unwrap()@ == bls_signature_sum(first@, second@),
        sum is Some ==> sum.unwrap()@.len() == 96,
        sum is Some ==> bls_signature_decodes(sum.unwrap()@),
{
    match (
        blst::min_pk::Signature::uncompress(first),
        blst::min_pk::Signature::uncompress(second),
    ) {
        (Ok(a), Ok(b)) => {
            let mut total = blst::min_pk::AggregateSignature::from_signature(&a);
            total.add_signature(&b, false).ok()?;
            Some(total.to_signature().to_bytes().to_vec())
        },
        _ => None,
    }
}

impl PublicKey {
    /// The key with these bytes.
    pub fn from_bytes(bytes: Vec<u8>) -> (key: PublicKey)
        ensures
            key@ == bytes@,
    {
        PublicKey { bytes }
    }

    /// The key as hexadecimal text.
    pub fn to_hex(&self) -> (text: String)
        ensures
            text@ == hex_encoding(self@),
    {
        encode_hex(self.bytes.as_slice())
    }
}

impl Signature {
    /// The signature with these bytes.
    pub fn from_bytes(bytes: Vec<u8>) -> (signature: Signature)
        ensures
            signature@ == bytes@,
    {
        Signature { bytes }
    }

    /// The signature as hexadecimal text.
    pub fn to_hex(&self) -> (text: String)
        ensures
            text@ == hex_encoding(self@),
    {
        encode_hex(self.bytes.as_slice())
    }

    /// Whether the bytes stand for a signature point.
    pub fn decodes(&self) -> (ok: bool)
        ensures
            ok == bls_signature_decodes(self@),
    {
        blst_signature_decodes(self.bytes.as_slice())
    }

    /// Whether this is a signature by `public_key` over `digest`.
    pub fn verify(&self, public_key: &PublicKey, digest: &Hash256) -> (ok: bool)
        ensures
            ok == bls_verifies(public_key@, digest@, SIGNATURE_DOMAIN@, self@),
            ok ==> bls_signature_decodes(self@),
    {
        blst_verify(
            public_key.bytes.as_slice(),
            digest.as_bytes(),
            SIGNATURE_DOMAIN,
            self.bytes.as_slice(),
        )
    }

    /// The sum of this signature and `other`; `None` where one of them does
    /// not decode.
    pub fn aggregate(&self, other: &Signature) -> (sum: Option<Signature>)
        ensures
            sum is Some <==> bls_signature_decodes(self@) && bls_signature_decodes(other@),
            sum matches Some(s) ==> s@ == bls_signature_sum(self@, other@),
            sum matches Some(s) ==> s@.len() == 96 && bls_signature_decodes(s@),
    {
        match blst_add(self.bytes.as_slice(), other.bytes.as_slice()) {
            Some(bytes) => Some(Signature { bytes }),
            None => None,
        }
    }
}

} // verus!
