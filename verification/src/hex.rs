//! Hexadecimal text, the form in which keys and signatures are stored.

use vstd::prelude::*;

verus! {

/// The lower-case digit that stands for `nibble`, which is below sixteen.
pub open spec fn hex_digit(nibble: u8) -> char {
    if nibble < 10 {
        (nibble + 48) as char
    } else {
        (nibble + 87) as char
    }
}

/// What a digit stands for, in either case; `None` for any other character.
pub open spec fn hex_digit_value(digit: char) -> Option<u8> {
    let code = digit as u32;
    if 48 <= code <= 57 {
        Some((code - 48) as u8)
    } else if 97 <= code <= 102 {
        Some((code - 87) as u8)
    } else if 65 <= code <= 70 {
        Some((code - 55) as u8)
    } else {
        None
    }
}

/// The text of `bytes`: two lower-case digits per byte, the high half first.
pub open spec fn hex_encoding(bytes: Seq<u8>) -> Seq<char> {
    Seq::new(
        2 * bytes.len(),
        |i: int|
            if i % 2 == 0 {
                hex_digit(bytes[i / 2] >> 4)
            } else {
                hex_digit(bytes[i / 2] & 0x0f)
            },
    )
}

/// Whether `text` is the text of some bytes: an even number of digits.
pub open spec fn is_hex(text: Seq<char>) -> bool {
    &&& text.len() % 2 == 0
    &&& forall|i: int| 0 <= i < text.len() ==> (#[trigger] hex_digit_value(text[i])) is Some
}

/// The bytes that `text` stands for, where `is_hex(text)`.
pub open spec fn hex_decoding(text: Seq<char>) -> Seq<u8> {
    Seq::new(
        text.len() / 2,
        |i: int|
            (hex_digit_value(text[2 * i]).unwrap() << 4) | hex_digit_value(
                text[2 * i + 1],
            ).unwrap(),
    )
}

/// `hex::FromHexError`, the reason for which `hex::decode` fails. Nothing
/// is read from it.
#[verifier::external_type_specification]
#[verifier::external_body]
pub struct ExFromHexError(hex::FromHexError);

/// Calls `hex::encode`, which writes each byte as two digits taken from
/// `0123456789abcdef`, the high half first.
#[verifier::external_body]
fn hex_encode(bytes: &[u8]) -> (text: String)
    ensures
        text@ == hex_encoding(bytes@),
{
    hex::encode(bytes)
}

/// Calls `hex::decode`, which fails on an odd number of characters and on
/// any character that is no digit in either case, and otherwise returns one
/// byte per pair of digits, the first digit being the high half.
#[verifier::external_body]
fn hex_decode(text: &str) -> (decoded: Result<Vec<u8>, hex::FromHexError>)
    ensures
        decoded is Ok <==> is_hex(text@),
        decoded matches Ok(bytes) ==> bytes@ == hex_decoding(text@),
{
    hex::decode(text)
}

/// Writes `bytes` as hexadecimal text.
pub fn encode_hex(bytes: &[u8]) -> (text: String)
    ensures
        text@ == hex_encoding(bytes@),
{
    hex_encode(bytes)
}

/// Reads hexadecimal text; `None` where `text` is no such text.
pub fn decode_hex(text: &str) -> (bytes: Option<Vec<u8>>)
    ensures
        bytes is Some <==> is_hex(text@),
        bytes matches Some(b) ==> b@ == hex_decoding(text@),
{
    match hex_decode(text) {
        Ok(bytes) => Some(bytes),
        Err(_) => None,
    }
}

proof fn digit_round_trip(nibble: u8)
    requires
        nibble < 16,
    ensures
        hex_digit_value(hex_digit(nibble)) == Some(nibble),
{
}

proof fn byte_halves(byte: u8)
    ensures
        byte >> 4 < 16,
        byte & 0x0f < 16,
        ((byte >> 4) << 4) | (byte & 0x0f) == byte,
{
    assert(byte >> 4 < 16) by (bit_vector);
    assert(byte & 0x0f < 16) by (bit_vector);
    assert(((byte >> 4) << 4) | (byte & 0x0f) == byte) by (bit_vector);
}

/// Text written from bytes reads back as those bytes.
pub proof fn hex_round_trip(bytes: Seq<u8>)
    ensures
        is_hex(hex_encoding(bytes)),
        hex_decoding(hex_encoding(bytes)) == bytes,
        hex_encoding(bytes).len() == 2 * bytes.len(),
{
    let text = hex_encoding(bytes);
    assert forall|i: int| 0 <= i < text.len() implies (#[trigger] hex_digit_value(
        text[i],
    )) is Some by {
        byte_halves(bytes[i / 2]);
        digit_round_trip(bytes[i / 2] >> 4);
        digit_round_trip(bytes[i / 2] & 0x0f);
    }
    let back = hex_decoding(text);
    assert forall|i: int| 0 <= i < bytes.len() implies back[i] == bytes[i] by {
        byte_halves(bytes[i]);
        digit_round_trip(bytes[i] >> 4);
        digit_round_trip(bytes[i] & 0x0f);
        assert((2 * i) % 2 == 0);
        assert((2 * i) / 2 == i);
        assert((2 * i + 1) % 2 == 1);
        assert((2 * i + 1) / 2 == i);
    }
    assert(back =~= bytes);
}

} // verus!
