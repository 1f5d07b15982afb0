use attestations::bls::{PublicKey, Signature, SIGNATURE_DOMAIN};
use attestations::digest::get_message_digest;
use attestations::encoding::{Encode, IntervalInclusionMessage, Price, PriceValueMessage};
use attestations::signed::validate_message;

fn secret_key(seed: u8) -> blst::min_pk::SecretKey {
    blst::min_pk::SecretKey::key_gen(&[seed; 32], &[]).unwrap()
}

fn public_key(seed: u8) -> PublicKey {
    PublicKey::from_bytes(secret_key(seed).sk_to_pk().compress().to_vec())
}

fn sign<T: Encode>(seed: u8, message: &T) -> Signature {
    let digest = get_message_digest(message);
    let point = secret_key(seed).sign(digest.as_bytes(), SIGNATURE_DOMAIN.as_bytes(), &[]);
    Signature::from_bytes(point.compress().to_vec())
}

#[test]
fn the_domain_is_the_proof_of_possession_suite() {
    assert_eq!(SIGNATURE_DOMAIN, "BLS_SIG_BLS12381G2_XMD:SHA-256_SSWU_RO_POP_");
}

#[test]
fn a_signature_over_the_digest_is_valid() {
    let message = IntervalInclusionMessage { value: 100, interval_size: 10, slot_number: 5 };
    let signature = sign(1, &message);
    assert!(validate_message(&public_key(1), &message, &signature));
    let value = PriceValueMessage { price: Price { value: 100 }, slot_number: 5 };
    assert!(validate_message(&public_key(1), &value, &sign(1, &value)));
}

#[test]
fn a_signature_is_invalid_under_another_key() {
    let message = IntervalInclusionMessage { value: 100, interval_size: 10, slot_number: 5 };
    let signature = sign(1, &message);
    assert!(!validate_message(&public_key(2), &message, &signature));
}

#[test]
fn a_signature_is_invalid_for_an_altered_message() {
    let message = IntervalInclusionMessage { value: 100, interval_size: 10, slot_number: 5 };
    let signature = sign(1, &message);
    let key = public_key(1);
    for bit in 0..64 {
        let altered = IntervalInclusionMessage { value: 100 ^ (1u64 << bit), ..message };
        assert!(!validate_message(&key, &altered, &signature));
        let altered = IntervalInclusionMessage { interval_size: 10 ^ (1u64 << bit), ..message };
        assert!(!validate_message(&key, &altered, &signature));
        let altered = IntervalInclusionMessage { slot_number: 5 ^ (1u64 << bit), ..message };
        assert!(!validate_message(&key, &altered, &signature));
    }
}

#[test]
fn a_signature_with_a_flipped_bit_is_invalid() {
    let message = PriceValueMessage { price: Price { value: 100 }, slot_number: 5 };
    let signature = sign(1, &message);
    let key = public_key(1);
    for position in 0..96 {
        for bit in 0..8 {
            let mut bytes = signature.bytes.clone();
            bytes[position] ^= 1 << bit;
            assert!(!validate_message(&key, &message, &Signature::from_bytes(bytes)));
        }
    }
}

#[test]
fn bytes_that_are_no_key_or_no_signature_verify_nothing() {
    let message = PriceValueMessage { price: Price { value: 1 }, slot_number: 2 };
    let signature = sign(1, &message);
    assert!(!validate_message(&PublicKey::from_bytes(vec![]), &message, &signature));
    assert!(!validate_message(&PublicKey::from_bytes(vec![0; 48]), &message, &signature));
    assert!(!validate_message(&public_key(1), &message, &Signature::from_bytes(vec![])));
    assert!(!validate_message(&public_key(1), &message, &Signature::from_bytes(vec![0; 96])));
}

#[test]
fn verify_takes_the_digest() {
    let message = PriceValueMessage { price: Price { value: 3 }, slot_number: 4 };
    let other = PriceValueMessage { price: Price { value: 4 }, slot_number: 3 };
    let signature = sign(7, &message);
    assert!(signature.verify(&public_key(7), &get_message_digest(&message)));
    assert!(!signature.verify(&public_key(7), &get_message_digest(&other)));
}

#[test]
fn a_signature_decodes_and_other_bytes_do_not() {
    let message = PriceValueMessage { price: Price { value: 3 }, slot_number: 4 };
    assert!(sign(1, &message).decodes());
    assert!(!Signature::from_bytes(vec![]).decodes());
    assert!(!Signature::from_bytes(vec![0; 96]).decodes());
    assert!(!Signature::from_bytes(vec![0xff; 96]).decodes());
    let mut long = sign(1, &message).bytes;
    long.push(0);
    assert!(!Signature::from_bytes(long).decodes());
}

#[test]
fn the_sum_of_two_signatures_verifies_against_both_keys() {
    let message = IntervalInclusionMessage { value: 100, interval_size: 10, slot_number: 5 };
    let a = sign(1, &message);
    let b = sign(2, &message);
    let sum = a.aggregate(&b).unwrap();
    assert_ne!(sum, a);
    assert_ne!(sum, b);
    assert_eq!(sum.bytes.len(), 96);
    assert!(sum.decodes());
    let point = blst::min_pk::Signature::uncompress(&sum.bytes).unwrap();
    let key_a = secret_key(1).sk_to_pk();
    let key_b = secret_key(2).sk_to_pk();
    let digest = get_message_digest(&message);
    let outcome = point.fast_aggregate_verify(
        true,
        digest.as_bytes(),
        SIGNATURE_DOMAIN.as_bytes(),
        &[&key_a, &key_b],
    );
    assert_eq!(outcome, blst::BLST_ERROR::BLST_SUCCESS);
    assert_eq!(b.aggregate(&a).unwrap(), sum);
}

#[test]
fn bytes_that_are_no_signature_cannot_be_summed() {
    let message = IntervalInclusionMessage { value: 100, interval_size: 10, slot_number: 5 };
    let a = sign(1, &message);
    let junk = Signature::from_bytes(vec![1, 2, 3]);
    assert_eq!(a.aggregate(&junk), None);
    assert_eq!(junk.aggregate(&a), None);
}

#[test]
fn keys_and_signatures_are_written_as_hex() {
    assert_eq!(PublicKey::from_bytes(vec![0xde, 0xad]).to_hex(), "dead");
    assert_eq!(Signature::from_bytes(vec![0xbe, 0xef, 0x01]).to_hex(), "beef01");
    let key = public_key(1);
    assert_eq!(key.to_hex().len(), 96);
    assert_eq!(key.clone(), key);
}
