use attestations::bls::{PublicKey, Signature, SIGNATURE_DOMAIN};
use attestations::bucket::{extended_row, merge_into_bucket};
use attestations::digest::get_message_digest;
use attestations::encoding::{Encode, IntervalInclusionMessage, Price, PriceValueMessage};
use attestations::entry::{
    AggregatePriceIntervalEntry, BucketKey, PriceIntervalEntry, PriceValueEntry,
};
use attestations::error::AttestationError;
use attestations::signed::{
    OracleMessage, SignedIntervalInclusionMessage, SignedPriceValueMessage,
};
use attestations::store::{
    get_aggregate_price_interval_attestations, get_price_interval_attestations,
    get_price_value_attestations, AttestationStore,
};
use attestations::submission::{
    extend_or_create_aggregate_interval_attestation, post_oracle_message,
    price_interval_attestation, price_value_attestation, save_price_interval_attestation,
    save_price_interval_attestations, save_price_value_attestation,
};

fn signer(seed: u8) -> blst::min_pk::SecretKey {
    blst::min_pk::SecretKey::key_gen(&[seed; 32], &[]).unwrap()
}

fn key_of(seed: u8) -> PublicKey {
    PublicKey::from_bytes(signer(seed).sk_to_pk().compress().to_vec())
}

fn signed_by<T: Encode>(seed: u8, message: &T) -> Signature {
    let digest = get_message_digest(message);
    let point = signer(seed).sign(digest.as_bytes(), SIGNATURE_DOMAIN.as_bytes(), &[]);
    Signature::from_bytes(point.compress().to_vec())
}

fn interval_claim(seed: u8, value: u64, slot: u64, interval: u64) -> SignedIntervalInclusionMessage {
    let message = IntervalInclusionMessage { value, interval_size: interval, slot_number: slot };
    SignedIntervalInclusionMessage { message, signature: signed_by(seed, &message) }
}

fn value_claim(seed: u8, price: u64, slot: u64) -> SignedPriceValueMessage {
    let message = PriceValueMessage { price: Price { value: price }, slot_number: slot };
    SignedPriceValueMessage { message, signature: signed_by(seed, &message) }
}

fn passes_for(seeds: &[u8], message: &IntervalInclusionMessage, aggregate: &str) -> bool {
    let bytes = attestations::hex::decode_hex(aggregate).unwrap();
    let point = blst::min_pk::Signature::uncompress(&bytes).unwrap();
    let keys: Vec<blst::min_pk::PublicKey> = seeds.iter().map(|s| signer(*s).sk_to_pk()).collect();
    let refs: Vec<&blst::min_pk::PublicKey> = keys.iter().collect();
    let digest = get_message_digest(message);
    point.fast_aggregate_verify(true, digest.as_bytes(), SIGNATURE_DOMAIN.as_bytes(), &refs)
        == blst::BLST_ERROR::BLST_SUCCESS
}

#[test]
fn the_first_merge_makes_the_bucket() {
    let claim = interval_claim(1, 100, 5, 10);
    let row = merge_into_bucket(None, &claim).unwrap();
    assert_eq!(
        row,
        AggregatePriceIntervalEntry {
            value: 100,
            slot_number: 5,
            aggregate_signature: claim.signature.to_hex(),
            interval_size: 10,
            num_validators: 1,
        }
    );
    assert_eq!(row.aggregate(), Ok(claim.signature.clone()));
}

#[test]
fn the_second_merge_adds_to_the_bucket() {
    let a = interval_claim(1, 100, 5, 10);
    let b = interval_claim(2, 100, 5, 10);
    let first = merge_into_bucket(None, &a).unwrap();
    let second = merge_into_bucket(Some(&first), &b).unwrap();
    assert_eq!(second.num_validators, 2);
    assert_eq!(second.key(), BucketKey { value: 100, slot_number: 5, interval_size: 10 });
    assert_eq!(
        second.aggregate_signature,
        a.signature.aggregate(&b.signature).unwrap().to_hex()
    );
    assert_ne!(second.aggregate_signature, first.aggregate_signature);
    assert!(passes_for(&[1, 2], &a.message, &second.aggregate_signature));
    assert!(!passes_for(&[1], &a.message, &second.aggregate_signature));
}

#[test]
fn a_stored_signature_that_is_no_hex_is_a_fault_of_the_data() {
    let claim = interval_claim(1, 100, 5, 10);
    let stored = AggregatePriceIntervalEntry {
        value: 100,
        slot_number: 5,
        aggregate_signature: String::from("not hexadecimal"),
        interval_size: 10,
        num_validators: 3,
    };
    assert_eq!(
        merge_into_bucket(Some(&stored), &claim),
        Err(AttestationError::MalformedStoredSignature)
    );
    assert_eq!(stored.aggregate(), Err(AttestationError::MalformedStoredSignature));
    assert!(merge_into_bucket(None, &claim).is_ok());
}

#[test]
fn a_stored_signature_that_is_no_point_is_a_fault_of_the_data() {
    let claim = interval_claim(1, 100, 5, 10);
    let stored = AggregatePriceIntervalEntry {
        value: 100,
        slot_number: 5,
        aggregate_signature: String::from("00ff"),
        interval_size: 10,
        num_validators: 3,
    };
    assert_eq!(
        merge_into_bucket(Some(&stored), &claim),
        Err(AttestationError::MalformedStoredSignature)
    );
    let odd = AggregatePriceIntervalEntry {
        aggregate_signature: String::from("abc"),
        ..stored.clone()
    };
    assert_eq!(
        merge_into_bucket(Some(&odd), &claim),
        Err(AttestationError::MalformedStoredSignature)
    );
}

#[test]
fn a_signature_that_is_no_point_is_not_merged() {
    let message = IntervalInclusionMessage { value: 100, interval_size: 10, slot_number: 5 };
    let junk = SignedIntervalInclusionMessage {
        message,
        signature: Signature::from_bytes(vec![7; 96]),
    };
    assert_eq!(merge_into_bucket(None, &junk), Err(AttestationError::InvalidSignature));
    let first = merge_into_bucket(None, &interval_claim(1, 100, 5, 10)).unwrap();
    assert_eq!(merge_into_bucket(Some(&first), &junk), Err(AttestationError::InvalidSignature));
}

#[test]
fn a_stored_fault_comes_before_a_bad_signature() {
    let message = IntervalInclusionMessage { value: 100, interval_size: 10, slot_number: 5 };
    let junk = SignedIntervalInclusionMessage {
        message,
        signature: Signature::from_bytes(vec![7; 96]),
    };
    let stored = AggregatePriceIntervalEntry {
        value: 100,
        slot_number: 5,
        aggregate_signature: String::from("zz"),
        interval_size: 10,
        num_validators: 1,
    };
    assert_eq!(
        merge_into_bucket(Some(&stored), &junk),
        Err(AttestationError::MalformedStoredSignature)
    );
}

#[test]
fn a_full_count_takes_no_further_merge() {
    let a = interval_claim(1, 100, 5, 10);
    let b = interval_claim(2, 100, 5, 10);
    let mut stored = merge_into_bucket(None, &a).unwrap();
    stored.num_validators = u64::MAX;
    assert_eq!(merge_into_bucket(Some(&stored), &b), Err(AttestationError::StorageFailure));
    stored.num_validators = u64::MAX - 1;
    assert_eq!(merge_into_bucket(Some(&stored), &b).unwrap().num_validators, u64::MAX);
}

#[test]
fn an_extended_row_counts_one_more() {
    let key = BucketKey { value: 1, slot_number: 2, interval_size: 3 };
    let sum = Signature::from_bytes(vec![0xab, 0xcd]);
    assert_eq!(
        extended_row(key, &sum, 41),
        Ok(AggregatePriceIntervalEntry {
            value: 1,
            slot_number: 2,
            aggregate_signature: String::from("abcd"),
            interval_size: 3,
            num_validators: 42,
        })
    );
    assert_eq!(extended_row(key, &sum, u64::MAX), Err(AttestationError::StorageFailure));
    assert_eq!(AggregatePriceIntervalEntry::new(key, &sum, 0).num_validators, 0);
}

#[test]
fn the_merged_row_takes_its_key_from_the_claim() {
    let a = interval_claim(1, 100, 5, 10);
    let mut stored = merge_into_bucket(None, &a).unwrap();
    stored.value = 999;
    let b = interval_claim(2, 100, 5, 10);
    let merged = merge_into_bucket(Some(&stored), &b).unwrap();
    assert_eq!(merged.key(), b.message.key());
}

#[test]
fn rows_are_made_from_the_claim_and_the_key() {
    let key = key_of(3);
    let value = value_claim(3, 100, 5);
    assert_eq!(
        PriceValueEntry::new(&key, &value),
        PriceValueEntry {
            validator_public_key: key.to_hex(),
            value: 100,
            slot_number: 5,
            signature: value.signature.to_hex(),
        }
    );
    let interval = interval_claim(3, 100, 5, 10);
    assert_eq!(
        PriceIntervalEntry::new(&key, &interval),
        PriceIntervalEntry {
            validator_public_key: key.to_hex(),
            value: 100,
            slot_number: 5,
            signature: interval.signature.to_hex(),
            interval_size: 10,
        }
    );
}

#[test]
fn a_new_store_is_empty() {
    let store = AttestationStore::new();
    assert!(get_price_value_attestations(&store).is_empty());
    assert!(get_price_interval_attestations(&store).is_empty());
    assert!(get_aggregate_price_interval_attestations(&store).is_empty());
    assert_eq!(
        store.get_aggregate_bucket(BucketKey { value: 1, slot_number: 1, interval_size: 1 }),
        None
    );
}

#[test]
fn a_bucket_row_is_written_once_per_key() {
    let mut store = AttestationStore::new();
    let key = BucketKey { value: 1, slot_number: 2, interval_size: 3 };
    let other = BucketKey { value: 1, slot_number: 3, interval_size: 2 };
    let sum = Signature::from_bytes(vec![1]);
    store.upsert_aggregate_bucket(AggregatePriceIntervalEntry::new(key, &sum, 1));
    store.upsert_aggregate_bucket(AggregatePriceIntervalEntry::new(other, &sum, 1));
    store.upsert_aggregate_bucket(AggregatePriceIntervalEntry::new(key, &sum, 2));
    let rows = get_aggregate_price_interval_attestations(&store);
    assert_eq!(rows.len(), 2);
    assert_eq!(rows[0], AggregatePriceIntervalEntry::new(key, &sum, 2));
    assert_eq!(rows[1], AggregatePriceIntervalEntry::new(other, &sum, 1));
    assert_eq!(store.get_aggregate_bucket(key), Some(&rows[0]));
    assert_eq!(store.get_aggregate_bucket(other), Some(&rows[1]));
}

#[test]
fn two_validators_fill_one_bucket() {
    let mut store = AttestationStore::new();
    let a = interval_claim(1, 100, 5, 10);
    let b = interval_claim(2, 100, 5, 10);
    let key = BucketKey { value: 100, slot_number: 5, interval_size: 10 };

    assert_eq!(save_price_interval_attestation(&mut store, &a, &key_of(1)), Ok(()));
    let first = store.get_aggregate_bucket(key).unwrap().clone();
    assert_eq!(first.num_validators, 1);
    assert_eq!(first.aggregate_signature, a.signature.to_hex());

    assert_eq!(save_price_interval_attestation(&mut store, &b, &key_of(2)), Ok(()));
    let second = store.get_aggregate_bucket(key).unwrap().clone();
    assert_eq!(second.num_validators, 2);
    assert_eq!(
        second.aggregate_signature,
        a.signature.aggregate(&b.signature).unwrap().to_hex()
    );
    assert!(passes_for(&[1, 2], &a.message, &second.aggregate_signature));
    assert_eq!(get_price_interval_attestations(&store).len(), 2);
    assert_eq!(get_aggregate_price_interval_attestations(&store).len(), 1);
}

#[test]
fn an_altered_claim_is_rejected_and_nothing_is_written() {
    let mut store = AttestationStore::new();
    let mut claim = interval_claim(1, 100, 5, 10);
    claim.message.value = 101;
    assert_eq!(
        save_price_interval_attestation(&mut store, &claim, &key_of(1)),
        Err(AttestationError::InvalidSignature)
    );
    assert!(get_price_interval_attestations(&store).is_empty());
    assert!(get_aggregate_price_interval_attestations(&store).is_empty());
    assert_eq!(
        store.get_aggregate_bucket(BucketKey { value: 100, slot_number: 5, interval_size: 10 }),
        None
    );
    assert_eq!(
        store.get_aggregate_bucket(BucketKey { value: 101, slot_number: 5, interval_size: 10 }),
        None
    );
}

#[test]
fn many_validators_are_each_counted_once() {
    let mut store = AttestationStore::new();
    let seeds: Vec<u8> = (1..=7).collect();
    let message = IntervalInclusionMessage { value: 42, interval_size: 3, slot_number: 9 };
    for seed in &seeds {
        let claim = interval_claim(*seed, 42, 9, 3);
        assert_eq!(save_price_interval_attestation(&mut store, &claim, &key_of(*seed)), Ok(()));
    }
    let row = store.get_aggregate_bucket(message.key()).unwrap();
    assert_eq!(row.num_validators, 7);
    assert!(passes_for(&seeds, &message, &row.aggregate_signature));
    assert!(!passes_for(&seeds[1..], &message, &row.aggregate_signature));
}

#[test]
fn merges_into_several_buckets_in_any_order_lose_nothing() {
    let mut store = AttestationStore::new();
    let order: [(u8, u64); 9] =
        [(1, 10), (2, 20), (3, 10), (4, 30), (5, 20), (6, 10), (7, 10), (8, 30), (9, 20)];
    for (seed, value) in order {
        let claim = interval_claim(seed, value, 1, 1);
        assert_eq!(extend_or_create_aggregate_interval_attestation(&mut store, &claim), Ok(()));
    }
    let count = |value: u64| {
        store
            .get_aggregate_bucket(BucketKey { value, slot_number: 1, interval_size: 1 })
            .unwrap()
            .num_validators
    };
    assert_eq!(count(10), 4);
    assert_eq!(count(20), 3);
    assert_eq!(count(30), 2);
    assert_eq!(get_aggregate_price_interval_attestations(&store).len(), 3);
    assert!(get_price_interval_attestations(&store).is_empty());
}

#[test]
fn a_validator_that_is_merged_twice_is_counted_twice() {
    let mut store = AttestationStore::new();
    let claim = interval_claim(1, 100, 5, 10);
    assert_eq!(save_price_interval_attestation(&mut store, &claim, &key_of(1)), Ok(()));
    assert_eq!(save_price_interval_attestation(&mut store, &claim, &key_of(1)), Ok(()));
    let row = store.get_aggregate_bucket(claim.message.key()).unwrap();
    assert_eq!(row.num_validators, 2);
    assert!(passes_for(&[1, 1], &claim.message, &row.aggregate_signature));
    assert_eq!(get_price_interval_attestations(&store).len(), 2);
}

#[test]
fn a_stored_fault_fails_the_merge_and_keeps_the_row_of_the_claim() {
    let mut store = AttestationStore::new();
    let claim = interval_claim(1, 100, 5, 10);
    let broken = AggregatePriceIntervalEntry {
        value: 100,
        slot_number: 5,
        aggregate_signature: String::from("xyz"),
        interval_size: 10,
        num_validators: 4,
    };
    store.upsert_aggregate_bucket(broken.clone());
    assert_eq!(
        save_price_interval_attestation(&mut store, &claim, &key_of(1)),
        Err(AttestationError::MalformedStoredSignature)
    );
    assert_eq!(store.get_aggregate_bucket(claim.message.key()), Some(&broken));
    assert_eq!(
        get_price_interval_attestations(&store),
        vec![PriceIntervalEntry::new(&key_of(1), &claim)]
    );
}

#[test]
fn a_value_claim_is_stored_when_it_is_valid() {
    let mut store = AttestationStore::new();
    let claim = value_claim(1, 100, 5);
    assert_eq!(save_price_value_attestation(&mut store, &claim, &key_of(1)), Ok(()));
    assert_eq!(
        get_price_value_attestations(&store),
        vec![PriceValueEntry::new(&key_of(1), &claim)]
    );
    assert_eq!(
        save_price_value_attestation(&mut store, &claim, &key_of(2)),
        Err(AttestationError::InvalidSignature)
    );
    assert_eq!(get_price_value_attestations(&store).len(), 1);
}

#[test]
fn a_submission_is_stored_claim_by_claim() {
    let mut store = AttestationStore::new();
    let message = OracleMessage {
        value_message: value_claim(1, 100, 5),
        interval_inclusion_messages: vec![interval_claim(1, 100, 5, 10), interval_claim(1, 100, 5, 20)],
        validator_public_key: key_of(1),
    };
    assert_eq!(post_oracle_message(&mut store, &message), Ok(()));
    assert_eq!(
        get_price_value_attestations(&store),
        vec![PriceValueEntry::new(&key_of(1), &message.value_message)]
    );
    assert_eq!(
        get_price_interval_attestations(&store),
        vec![
            PriceIntervalEntry::new(&key_of(1), &message.interval_inclusion_messages[0]),
            PriceIntervalEntry::new(&key_of(1), &message.interval_inclusion_messages[1]),
        ]
    );
    let rows = get_aggregate_price_interval_attestations(&store);
    assert_eq!(rows.len(), 2);
    assert_eq!(rows[0].interval_size, 10);
    assert_eq!(rows[1].interval_size, 20);
    assert_eq!(rows[0].num_validators, 1);
    assert_eq!(rows[1].num_validators, 1);
}

#[test]
fn a_submission_without_interval_claims_stores_the_value_claim() {
    let mut store = AttestationStore::new();
    let message = OracleMessage {
        value_message: value_claim(1, 100, 5),
        interval_inclusion_messages: vec![],
        validator_public_key: key_of(1),
    };
    assert_eq!(post_oracle_message(&mut store, &message), Ok(()));
    assert_eq!(get_price_value_attestations(&store).len(), 1);
    assert!(get_price_interval_attestations(&store).is_empty());
    assert!(get_aggregate_price_interval_attestations(&store).is_empty());
}

#[test]
fn a_bad_value_claim_rejects_the_submission_whole() {
    let mut store = AttestationStore::new();
    let message = OracleMessage {
        value_message: value_claim(2, 100, 5),
        interval_inclusion_messages: vec![interval_claim(1, 100, 5, 10)],
        validator_public_key: key_of(1),
    };
    assert_eq!(post_oracle_message(&mut store, &message), Err(AttestationError::InvalidSignature));
    assert!(get_price_value_attestations(&store).is_empty());
    assert!(get_price_interval_attestations(&store).is_empty());
    assert!(get_aggregate_price_interval_attestations(&store).is_empty());
}

#[test]
fn a_bad_interval_claim_ends_the_submission_and_undoes_nothing() {
    let mut store = AttestationStore::new();
    let message = OracleMessage {
        value_message: value_claim(1, 100, 5),
        interval_inclusion_messages: vec![
            interval_claim(1, 100, 5, 10),
            interval_claim(2, 100, 5, 20),
            interval_claim(1, 100, 5, 30),
        ],
        validator_public_key: key_of(1),
    };
    assert_eq!(post_oracle_message(&mut store, &message), Err(AttestationError::InvalidSignature));
    assert_eq!(get_price_value_attestations(&store).len(), 1);
    assert_eq!(
        get_price_interval_attestations(&store),
        vec![PriceIntervalEntry::new(&key_of(1), &message.interval_inclusion_messages[0])]
    );
    let rows = get_aggregate_price_interval_attestations(&store);
    assert_eq!(rows.len(), 1);
    assert_eq!(rows[0].interval_size, 10);
}

#[test]
fn interval_claims_are_taken_in_their_order() {
    let mut store = AttestationStore::new();
    let claims = vec![
        interval_claim(1, 1, 1, 1),
        interval_claim(1, 2, 2, 2),
        interval_claim(1, 1, 1, 1),
    ];
    assert_eq!(save_price_interval_attestations(&mut store, &claims, &key_of(1)), Ok(()));
    let rows = get_aggregate_price_interval_attestations(&store);
    assert_eq!(rows.len(), 2);
    assert_eq!((rows[0].value, rows[0].num_validators), (1, 2));
    assert_eq!((rows[1].value, rows[1].num_validators), (2, 1));
    assert_eq!(get_price_interval_attestations(&store).len(), 3);
    assert_eq!(save_price_interval_attestations(&mut store, &vec![], &key_of(1)), Ok(()));
}

#[test]
fn a_row_is_made_only_for_a_claim_that_holds() {
    let value = value_claim(1, 100, 5);
    assert_eq!(
        price_value_attestation(&value, &key_of(1)),
        Ok(PriceValueEntry::new(&key_of(1), &value))
    );
    assert_eq!(
        price_value_attestation(&value, &key_of(2)),
        Err(AttestationError::InvalidSignature)
    );
    let interval = interval_claim(1, 100, 5, 10);
    assert_eq!(
        price_interval_attestation(&interval, &key_of(1)),
        Ok(PriceIntervalEntry::new(&key_of(1), &interval))
    );
    assert_eq!(
        price_interval_attestation(&interval, &key_of(2)),
        Err(AttestationError::InvalidSignature)
    );
}

#[test]
fn a_bucket_that_merges_wrote_takes_the_next_merge() {
    let mut store = AttestationStore::new();
    for seed in 1..=4 {
        let claim = interval_claim(seed, 9, 9, 9);
        assert_eq!(extend_or_create_aggregate_interval_attestation(&mut store, &claim), Ok(()));
        let rows = get_aggregate_price_interval_attestations(&store);
        assert_eq!(rows.len(), 1);
        assert_eq!(rows[0].num_validators, seed as u64);
        assert!(rows[0].aggregate().is_ok());
    }
}

#[test]
fn a_full_bucket_fails_the_claim_as_a_storage_failure() {
    let mut store = AttestationStore::new();
    let claim = interval_claim(1, 100, 5, 10);
    let mut full = merge_into_bucket(None, &interval_claim(2, 100, 5, 10)).unwrap();
    full.num_validators = u64::MAX;
    store.upsert_aggregate_bucket(full.clone());
    assert_eq!(
        save_price_interval_attestation(&mut store, &claim, &key_of(1)),
        Err(AttestationError::StorageFailure)
    );
    assert_eq!(store.get_aggregate_bucket(claim.message.key()), Some(&full));
}
