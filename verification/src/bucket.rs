//! Folding one more signature into a bucket.
//!
//! A bucket starts with the first claim merged into it, at a count of one
//! and with that claim's signature. Every later merge adds one to the count
//! and the signature to the sum. The bucket keeps no record of who
//! contributed: a validator that is merged twice is counted twice.

use crate::bls::{bls_signature_decodes, bls_signature_sum, Signature};
use crate::entry::{
    aggregate_row,
    bucket_key,
    AggregatePriceIntervalEntry,
    AggregatePriceIntervalEntryView,
    BucketKey,
};
use crate::error::AttestationError;
use crate::hex::{decode_hex, hex_decoding, hex_round_trip, is_hex};
use crate::signed::{SignedIntervalInclusionMessage, SignedIntervalInclusionMessageView};
use vstd::prelude::*;

verus! {

/// The aggregate signature that a stored row holds; `None` where its text
/// is no hexadecimal text or stands for no signature.
pub open spec fn stored_signature(row: AggregatePriceIntervalEntryView) -> Option<Seq<u8>> {
    if is_hex(row.aggregate_signature) && bls_signature_decodes(
        hex_decoding(row.aggregate_signature),
    ) {
        Some(hex_decoding(row.aggregate_signature))
    } else {
        None
    }
}

/// Whether every row can be read back.
pub open spec fn rows_read_back(rows: Seq<AggregatePriceIntervalEntryView>) -> bool {
    forall|i: int| 0 <= i < rows.len() ==> stored_signature(#[trigger] rows[i]) is Some
}

/// Whether a bucket takes one more merge: it has no row yet, or a row that
/// can be read back and whose count is not at its end.
pub open spec fn takes_a_merge(existing: Option<AggregatePriceIntervalEntryView>) -> bool {
    match existing {
        None => true,
        Some(row) => stored_signature(row) is Some && row.num_validators < u64::MAX,
    }
}

/// The row that a bucket holds once `claim` is merged into it, where
/// `existing` is its row before, if it had one.
///
/// A row that cannot be read back is a fault of the stored data, and is
/// never taken for a missing bucket. Next, a signature that does not decode
/// is invalid. Last, a count that is at its end cannot be stored one higher.
pub open spec fn merged_row(
    existing: Option<AggregatePriceIntervalEntryView>,
    claim: SignedIntervalInclusionMessageView,
) -> Result<AggregatePriceIntervalEntryView, AttestationError> {
    let key = bucket_key(claim.message);
    match existing {
        None => if !bls_signature_decodes(claim.signature) {
            Err(AttestationError::InvalidSignature)
        } else {
            Ok(aggregate_row(key, claim.signature, 1))
        },
        Some(row) => match stored_signature(row) {
            None => Err(AttestationError::MalformedStoredSignature),
            Some(sum) => if !bls_signature_decodes(claim.signature) {
                Err(AttestationError::InvalidSignature)
            } else if row.num_validators == u64::MAX {
                Err(AttestationError::StorageFailure)
            } else {
                Ok(
                    aggregate_row(
                        key,
                        bls_signature_sum(sum, claim.signature),
                        (row.num_validators + 1) as u64,
                    ),
                )
            },
        },
    }
}

impl AggregatePriceIntervalEntry {
    /// Reads the aggregate signature back from the row.
    pub fn aggregate(&self) -> (read: Result<Signature, AttestationError>)
        ensures
            read is Ok <==> stored_signature(self@) is Some,
            read matches Ok(signature) ==> Some(signature@) == stored_signature(self@),
            read matches Err(e) ==> e == AttestationError::MalformedStoredSignature,
    {
        match decode_hex(self.aggregate_signature.as_str()) {
            None => Err(AttestationError::MalformedStoredSignature),
            Some(bytes) => {
                let signature = Signature::from_bytes(bytes);
                if signature.decodes() {
                    Ok(signature)
                } else {
                    Err(AttestationError::MalformedStoredSignature)
                }
            },
        }
    }
}

/// The row of the bucket of `key` after one more merge, given the sum of
/// its signatures so far with the new one and its count before.
pub fn extended_row(key: BucketKey, sum: &Signature, count_before: u64) -> (row: Result<
    AggregatePriceIntervalEntry,
    AttestationError,
>)
    ensures
        row is Ok <==> count_before < u64::MAX,
        row matches Ok(r) ==> r@ == aggregate_row(key, sum@, (count_before + 1) as u64),
        row matches Err(e) ==> e == AttestationError::StorageFailure,
{
    if count_before == u64::MAX {
        Err(AttestationError::StorageFailure)
    } else {
        Ok(AggregatePriceIntervalEntry::new(key, sum, count_before + 1))
    }
}

/// What a row that may be missing holds.
pub open spec fn row_view(row: Option<&AggregatePriceIntervalEntry>) -> Option<
    AggregatePriceIntervalEntryView,
> {
    match row {
        Some(r) => Some(r@),
        None => None,
    }
}

/// What the outcome of a merge holds.
pub open spec fn outcome_view(outcome: Result<AggregatePriceIntervalEntry, AttestationError>)
    -> Result<AggregatePriceIntervalEntryView, AttestationError> {
    match outcome {
        Ok(row) => Ok(row@),
        Err(e) => Err(e),
    }
}

/// Merges the claim of `message` into its bucket: computes the row that the
/// bucket holds afterwards from the row `existing` that it holds now, if any.
/// The signature of `message` is not checked against any key here.
pub fn merge_into_bucket(
    existing: Option<&AggregatePriceIntervalEntry>,
    message: &SignedIntervalInclusionMessage,
) -> (merged: Result<AggregatePriceIntervalEntry, AttestationError>)
    ensures
        outcome_view(merged) == merged_row(row_view(existing), message@),
        merged is Ok <==> takes_a_merge(row_view(existing)) && bls_signature_decodes(
            message.signature@,
        ),
        merged matches Ok(row) ==> stored_signature(row@) is Some,
{
    let key = message.message.key();
    proof {
        hex_round_trip(message.signature@);
    }
    match existing {
        None => {
            if message.signature.decodes() {
                Ok(AggregatePriceIntervalEntry::new(key, &message.signature, 1))
            } else {
                Err(AttestationError::InvalidSignature)
            }
        },
        Some(row) => {
            let sum = row.aggregate()?;
            match sum.aggregate(&message.signature) {
                None => Err(AttestationError::InvalidSignature),
                Some(total) => {
                    proof {
                        hex_round_trip(total@);
                    }
                    extended_row(key, &total, row.num_validators)
                },
            }
        },
    }
}

} // verus!
