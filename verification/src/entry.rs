//! The rows that the repository keeps: one per accepted claim, and one per
//! bucket of interval claims. Keys and signatures stand in them as
//! hexadecimal text.

use crate::bls::{PublicKey, Signature};
use crate::encoding::IntervalInclusionMessage;
use crate::hex::hex_encoding;
use crate::signed::{
    SignedIntervalInclusionMessage,
    SignedIntervalInclusionMessageView,
    SignedPriceValueMessage,
    SignedPriceValueMessageView,
};
use vstd::prelude::*;

verus! {

/// What identifies a bucket: the claim itself.
#[derive(Clone, Copy, Debug, PartialEq, Eq, Structural)]
pub struct BucketKey {
    pub value: u64,
    pub slot_number: u64,
    pub interval_size: u64,
}

/// The row of an accepted price value claim.
#[derive(Debug, PartialEq, Eq)]
pub struct PriceValueEntry {
    pub validator_public_key: String,
    pub value: u64,
    pub slot_number: u64,
    pub signature: String,
}

/// The row of an accepted interval inclusion claim.
#[derive(Debug, PartialEq, Eq)]
pub struct PriceIntervalEntry {
    pub validator_public_key: String,
    pub value: u64,
    pub slot_number: u64,
    pub signature: String,
    pub interval_size: u64,
}

/// The row of a bucket: how many interval claims were merged into it, and
/// the sum of their signatures.
#[derive(Debug, PartialEq, Eq)]
pub struct AggregatePriceIntervalEntry {
    pub value: u64,
    pub slot_number: u64,
    pub aggregate_signature: String,
    pub interval_size: u64,
    pub num_validators: u64,
}

/// The row of a price value claim, with its texts as their characters.
pub struct PriceValueEntryView {
    pub validator_public_key: Seq<char>,
    pub value: u64,
    pub slot_number: u64,
    pub signature: Seq<char>,
}

/// The row of an interval inclusion claim, with its texts as their
/// characters.
pub struct PriceIntervalEntryView {
    pub validator_public_key: Seq<char>,
    pub value: u64,
    pub slot_number: u64,
    pub signature: Seq<char>,
    pub interval_size: u64,
}

/// The row of a bucket, with its text as its characters.
pub struct AggregatePriceIntervalEntryView {
    pub value: u64,
    pub slot_number: u64,
    pub aggregate_signature: Seq<char>,
    pub interval_size: u64,
    pub num_validators: u64,
}

impl View for PriceValueEntry {
    type V = PriceValueEntryView;

    open spec fn view(&self) -> PriceValueEntryView {
        PriceValueEntryView {
            validator_public_key: self.validator_public_key@,
            value: self.value,
            slot_number: self.slot_number,
            signature: self.signature@,
        }
    }
}

impl View for PriceIntervalEntry {
    type V = PriceIntervalEntryView;

    open spec fn view(&self) -> PriceIntervalEntryView {
        PriceIntervalEntryView {
            validator_public_key: self.validator_public_key@,
            value: self.value,
            slot_number: self.slot_number,
            signature: self.signature@,
            interval_size: self.interval_size,
        }
    }
}

impl View for AggregatePriceIntervalEntry {
    type V = AggregatePriceIntervalEntryView;

    open spec fn view(&self) -> AggregatePriceIntervalEntryView {
        AggregatePriceIntervalEntryView {
            value: self.value,
            slot_number: self.slot_number,
            aggregate_signature: self.aggregate_signature@,
            interval_size: self.interval_size,
            num_validators: self.num_validators,
        }
    }
}

impl Clone for PriceValueEntry {
    fn clone(&self) -> (copy: Self)
        ensures
            copy == *self,
    {
        PriceValueEntry {
            validator_public_key: self.validator_public_key.clone(),
            value: self.value,
            slot_number: self.slot_number,
            signature: self.signature.clone(),
        }
    }
}

impl Clone for PriceIntervalEntry {
    fn clone(&self) -> (copy: Self)
        ensures
            copy == *self,
    {
        PriceIntervalEntry {
            validator_public_key: self.validator_public_key.clone(),
            value: self.value,
            slot_number: self.slot_number,
            signature: self.signature.clone(),
            interval_size: self.interval_size,
        }
    }
}

impl Clone for AggregatePriceIntervalEntry {
    fn clone(&self) -> (copy: Self)
        ensures
            copy == *self,
    {
        AggregatePriceIntervalEntry {
            value: self.value,
            slot_number: self.slot_number,
            aggregate_signature: self.aggregate_signature.clone(),
            interval_size: self.interval_size,
            num_validators: self.num_validators,
        }
    }
}

/// The bucket that an interval claim belongs to.
pub open spec fn bucket_key(message: IntervalInclusionMessage) -> BucketKey {
    BucketKey {
        value: message.value,
        slot_number: message.slot_number,
        interval_size: message.interval_size,
    }
}

/// The row of a price value claim signed with `public_key`.
pub open spec fn price_value_row(
    public_key: Seq<u8>,
    claim: SignedPriceValueMessageView,
) -> PriceValueEntryView {
    PriceValueEntryView {
        validator_public_key: hex_encoding(public_key),
        value: claim.message.price.value,
        slot_number: claim.message.slot_number,
        signature: hex_encoding(claim.signature),
    }
}

/// The row of an interval inclusion claim signed with `public_key`.
pub open spec fn price_interval_row(
    public_key: Seq<u8>,
    claim: SignedIntervalInclusionMessageView,
) -> PriceIntervalEntryView {
    PriceIntervalEntryView {
        validator_public_key: hex_encoding(public_key),
        value: claim.message.value,
        slot_number: claim.message.slot_number,
        signature: hex_encoding(claim.signature),
        interval_size: claim.message.interval_size,
    }
}

/// The row of the bucket `key` after `num_validators` merges whose
/// signatures sum to `aggregate_signature`.
pub open spec fn aggregate_row(
    key: BucketKey,
    aggregate_signature: Seq<u8>,
    num_validators: u64,
) -> AggregatePriceIntervalEntryView {
    AggregatePriceIntervalEntryView {
        value: key.value,
        slot_number: key.slot_number,
        aggregate_signature: hex_encoding(aggregate_signature),
        interval_size: key.interval_size,
        num_validators,
    }
}

impl IntervalInclusionMessage {
    /// The bucket that this claim belongs to.
    pub fn key(&self) -> (key: BucketKey)
        ensures
            key == bucket_key(*self),
    {
        BucketKey {
            value: self.value,
            slot_number: self.slot_number,
            interval_size: self.interval_size,
        }
    }
}

impl PriceValueEntry {
    /// The row of `message`, signed with `public_key`.
    pub fn new(public_key: &PublicKey, message: &SignedPriceValueMessage) -> (row: Self)
        ensures
            row@ == price_value_row(public_key@, message@),
    {
        PriceValueEntry {
            validator_public_key: public_key.to_hex(),
            value: message.message.price.value,
            slot_number: message.message.slot_number,
            signature: message.signature.to_hex(),
        }
    }
}

impl PriceIntervalEntry {
    /// The row of `message`, signed with `public_key`.
    pub fn new(public_key: &PublicKey, message: &SignedIntervalInclusionMessage) -> (row: Self)
        ensures
            row@ == price_interval_row(public_key@, message@),
    {
        PriceIntervalEntry {
            validator_public_key: public_key.to_hex(),
            value: message.message.value,
            slot_number: message.message.slot_number,
            signature: message.signature.to_hex(),
            interval_size: message.message.interval_size,
        }
    }
}

impl AggregatePriceIntervalEntryView {
    /// The bucket that the row belongs to.
    pub open spec fn key(&self) -> BucketKey {
        BucketKey {
            value: self.value,
            slot_number: self.slot_number,
            interval_size: self.interval_size,
        }
    }
}

impl AggregatePriceIntervalEntry {
    /// The row of the bucket `key` with this sum and this count.
    pub fn new(key: BucketKey, aggregate_signature: &Signature, num_validators: u64) -> (row: Self)
        ensures
            row@ == aggregate_row(key, aggregate_signature@, num_validators),
    {
        AggregatePriceIntervalEntry {
            value: key.value,
            slot_number: key.slot_number,
            aggregate_signature: aggregate_signature.to_hex(),
            interval_size: key.interval_size,
            num_validators,
        }
    }

    /// The bucket that the row belongs to.
    pub fn key(&self) -> (key: BucketKey)
        ensures
            key == self@.key(),
    {
        BucketKey {
            value: self.value,
            slot_number: self.slot_number,
            interval_size: self.interval_size,
        }
    }
}

} // verus!
