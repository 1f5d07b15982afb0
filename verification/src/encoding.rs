//! The attested messages and their canonical byte layout.
//!
//! A message is laid out as its fields in declaration order, each as eight
//! little-endian bytes. The layout has no length prefixes and no padding, so
//! it has a fixed width per message type and distinct messages never share
//! a layout.

use vstd::bytes::*;
use vstd::prelude::*;

verus! {

/// A value that has a canonical byte layout.
pub trait Encode {
    /// The canonical layout of the value.
    spec fn ssz_bytes(&self) -> Seq<u8>;

    /// Lays the value out.
    fn as_ssz_bytes(&self) -> (bytes: Vec<u8>)
        ensures
            bytes@ == self.ssz_bytes(),
    ;
}

/// A price.
#[derive(Clone, Copy, Debug, PartialEq, Eq, Structural)]
pub struct Price {
    pub value: u64,
}

/// "The price was `price` at slot `slot_number`."
#[derive(Clone, Copy, Debug, PartialEq, Eq, Structural)]
pub struct PriceValueMessage {
    pub price: Price,
    pub slot_number: u64,
}

/// "The price stayed at `value` for `interval_size` slots ending at
/// `slot_number`."
#[derive(Clone, Copy, Debug, PartialEq, Eq, Structural)]
pub struct IntervalInclusionMessage {
    pub value: u64,
    pub interval_size: u64,
    pub slot_number: u64,
}

/// Calls `<u64 as ssz::Encode>::as_ssz_bytes`, which appends
/// `value.to_le_bytes()` to an empty vector: the result is the eight bytes of
/// `value`, least significant first.
#[verifier::external_body]
fn ssz_u64(value: u64) -> (bytes: Vec<u8>)
    ensures
        bytes@ == spec_u64_to_le_bytes(value),
{
    ssz::Encode::as_ssz_bytes(&value)
}

impl Encode for Price {
    open spec fn ssz_bytes(&self) -> Seq<u8> {
        spec_u64_to_le_bytes(self.value)
    }

    fn as_ssz_bytes(&self) -> (bytes: Vec<u8>) {
        ssz_u64(self.value)
    }
}

impl Encode for PriceValueMessage {
    open spec fn ssz_bytes(&self) -> Seq<u8> {
        self.price.ssz_bytes() + spec_u64_to_le_bytes(self.slot_number)
    }

    fn as_ssz_bytes(&self) -> (bytes: Vec<u8>) {
        let mut bytes = self.price.as_ssz_bytes();
        let mut slot_number = ssz_u64(self.slot_number);
        bytes.append(&mut slot_number);
        bytes
    }
}

impl Encode for IntervalInclusionMessage {
    open spec fn ssz_bytes(&self) -> Seq<u8> {
        spec_u64_to_le_bytes(self.value) + spec_u64_to_le_bytes(self.interval_size)
            + spec_u64_to_le_bytes(self.slot_number)
    }

    fn as_ssz_bytes(&self) -> (bytes: Vec<u8>) {
        let mut bytes = ssz_u64(self.value);
        let mut interval_size = ssz_u64(self.interval_size);
        let mut slot_number = ssz_u64(self.slot_number);
        bytes.append(&mut interval_size);
        bytes.append(&mut slot_number);
        bytes
    }
}

/// A price is laid out in eight bytes, and two prices with one layout are
/// one price.
pub proof fn price_layout_is_unambiguous(a: Price, b: Price)
    ensures
        a.ssz_bytes().len() == 8,
        a.ssz_bytes() == b.ssz_bytes() ==> a == b,
{
    lemma_auto_spec_u64_to_from_le_bytes();
}

/// A price value message is laid out in sixteen bytes, and two messages with
/// one layout are one message.
pub proof fn price_value_layout_is_unambiguous(a: PriceValueMessage, b: PriceValueMessage)
    ensures
        a.ssz_bytes().len() == 16,
        a.ssz_bytes() == b.ssz_bytes() ==> a == b,
{
    lemma_auto_spec_u64_to_from_le_bytes();
    if a.ssz_bytes() == b.ssz_bytes() {
        let x = a.ssz_bytes();
        let y = b.ssz_bytes();
        assert(x.subrange(0, 8) =~= spec_u64_to_le_bytes(a.price.value));
        assert(y.subrange(0, 8) =~= spec_u64_to_le_bytes(b.price.value));
        assert(x.subrange(8, 16) =~= spec_u64_to_le_bytes(a.slot_number));
        assert(y.subrange(8, 16) =~= spec_u64_to_le_bytes(b.slot_number));
    }
}

/// An interval inclusion message is laid out in twenty-four bytes, and two
/// messages with one layout are one message.
pub proof fn interval_inclusion_layout_is_unambiguous(
    a: IntervalInclusionMessage,
    b: IntervalInclusionMessage,
)
    ensures
        a.ssz_bytes().len() == 24,
        a.ssz_bytes() == b.ssz_bytes() ==> a == b,
{
    lemma_auto_spec_u64_to_from_le_bytes();
    if a.ssz_bytes() == b.ssz_bytes() {
        let x = a.ssz_bytes();
        let y = b.ssz_bytes();
        assert(x.subrange(0, 8) =~= spec_u64_to_le_bytes(a.value));
        assert(y.subrange(0, 8) =~= spec_u64_to_le_bytes(b.value));
        assert(x.subrange(8, 16) =~= spec_u64_to_le_bytes(a.interval_size));
        assert(y.subrange(8, 16) =~= spec_u64_to_le_bytes(b.interval_size));
        assert(x.subrange(16, 24) =~= spec_u64_to_le_bytes(a.slot_number));
        assert(y.subrange(16, 24) =~= spec_u64_to_le_bytes(b.slot_number));
    }
}

} // verus!
