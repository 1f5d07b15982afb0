//! What holds of buckets over any run of merges.

use crate::bls::{bls_signature_decodes, bls_signature_sum};
use crate::bucket::{merged_row, stored_signature};
use crate::encoding::{IntervalInclusionMessage, PriceValueMessage};
use crate::entry::{
    aggregate_row,
    bucket_key,
    price_interval_row,
    price_value_row,
    AggregatePriceIntervalEntryView,
    BucketKey,
};
use crate::error::AttestationError;
use crate::hex::hex_round_trip;
use crate::signed::{is_valid, OracleMessageView, SignedIntervalInclusionMessageView};
use crate::store::{
    bucket_after_write,
    bucket_of,
    keys_are_unique,
    write_keeps_keys_unique,
    StoredAttestations,
};
use crate::submission::{
    after_interval_claim,
    after_interval_claims,
    after_merge,
    after_submission,
};
use vstd::prelude::*;

verus! {

/// How many merges the bucket `key` has taken: the count in its row, and
/// none where it has no row.
pub open spec fn count_in(rows: Seq<AggregatePriceIntervalEntryView>, key: BucketKey) -> int {
    match bucket_of(rows, key) {
        Some(row) => row.num_validators as int,
        None => 0,
    }
}

/// How many of the claims belong to the bucket `key`.
pub open spec fn claims_for(claims: Seq<SignedIntervalInclusionMessageView>, key: BucketKey) -> int
    decreases claims.len(),
{
    if claims.len() == 0 {
        0
    } else {
        claims_for(claims.drop_last(), key) + if bucket_key(claims.last().message) == key {
            1int
        } else {
            0int
        }
    }
}

/// The store and the outcome after the claims are merged one after the
/// other, each into its own bucket, up to the first merge that fails.
pub open spec fn after_merges(
    store: StoredAttestations,
    claims: Seq<SignedIntervalInclusionMessageView>,
) -> (StoredAttestations, Result<(), AttestationError>)
    decreases claims.len(),
{
    if claims.len() == 0 {
        (store, Ok(()))
    } else {
        let before = after_merges(store, claims.drop_last());
        if before.1 is Err {
            before
        } else {
            after_merge(before.0, claims.last())
        }
    }
}

/// The store and the outcome after the claims are taken in one after the
/// other, claim `i` as signed with key `i`, up to the first that fails.
pub open spec fn after_contributions(
    store: StoredAttestations,
    public_keys: Seq<Seq<u8>>,
    claims: Seq<SignedIntervalInclusionMessageView>,
) -> (StoredAttestations, Result<(), AttestationError>)
    decreases claims.len(),
{
    if claims.len() == 0 {
        (store, Ok(()))
    } else {
        let before = after_contributions(store, public_keys.drop_last(), claims.drop_last());
        if before.1 is Err {
            before
        } else {
            after_interval_claim(before.0, public_keys.last(), claims.last())
        }
    }
}

/// The sum of the signatures of the claims, in their order.
pub open spec fn signature_sum_of(claims: Seq<SignedIntervalInclusionMessageView>) -> Seq<u8>
    decreases claims.len(),
{
    if claims.len() <= 1 {
        claims.last().signature
    } else {
        bls_signature_sum(signature_sum_of(claims.drop_last()), claims.last().signature)
    }
}

/// A row that a merge wrote reads back as the sum that was written.
pub proof fn written_sum_reads_back(key: BucketKey, sum: Seq<u8>, count: u64)
    requires
        bls_signature_decodes(sum),
    ensures
        stored_signature(aggregate_row(key, sum, count)) == Some(sum),
{
    hex_round_trip(sum);
}

/// Merging into a bucket that is not there makes it, at a count of one and
/// with the signature of the claim as its aggregate.
pub proof fn first_merge_starts_the_bucket(
    store: StoredAttestations,
    claim: SignedIntervalInclusionMessageView,
)
    requires
        bucket_of(store.aggregates, bucket_key(claim.message)) is None,
        bls_signature_decodes(claim.signature),
    ensures
        after_merge(store, claim).1 is Ok,
        bucket_of(after_merge(store, claim).0.aggregates, bucket_key(claim.message)) == Some(
            aggregate_row(bucket_key(claim.message), claim.signature, 1),
        ),
        count_in(after_merge(store, claim).0.aggregates, bucket_key(claim.message)) == 1,
        stored_signature(aggregate_row(bucket_key(claim.message), claim.signature, 1)) == Some(
            claim.signature,
        ),
{
    let key = bucket_key(claim.message);
    let row = aggregate_row(key, claim.signature, 1);
    bucket_after_write(store.aggregates, row, key);
    written_sum_reads_back(key, claim.signature, 1);
}

/// A merge touches one bucket: it adds one to the count of the bucket of
/// the claim and leaves every other bucket as it was. A merge that fails
/// leaves the store as it was. No bucket ever goes away.
pub proof fn merge_counts_once(
    store: StoredAttestations,
    claim: SignedIntervalInclusionMessageView,
    key: BucketKey,
)
    ensures
        after_merge(store, claim).1 is Err ==> after_merge(store, claim).0 == store,
        after_merge(store, claim).1 is Ok ==> count_in(after_merge(store, claim).0.aggregates, key)
            == count_in(store.aggregates, key) + if bucket_key(claim.message) == key {
            1int
        } else {
            0int
        },
        key != bucket_key(claim.message) ==> bucket_of(after_merge(store, claim).0.aggregates, key)
            == bucket_of(store.aggregates, key),
        bucket_of(store.aggregates, key) is Some ==> bucket_of(
            after_merge(store, claim).0.aggregates,
            key,
        ) is Some,
        after_merge(store, claim).0.value_attestations == store.value_attestations,
        after_merge(store, claim).0.interval_attestations == store.interval_attestations,
        keys_are_unique(store.aggregates) ==> keys_are_unique(
            after_merge(store, claim).0.aggregates,
        ),
{
    let existing = bucket_of(store.aggregates, bucket_key(claim.message));
    match merged_row(existing, claim) {
        Ok(row) => {
            bucket_after_write(store.aggregates, row, key);
            if keys_are_unique(store.aggregates) {
                write_keeps_keys_unique(store.aggregates, row);
            }
        },
        Err(_) => {},
    }
}

/// No merge is lost. Whatever the order in which claims for any buckets are
/// merged, once all merges are through each bucket has counted exactly the
/// claims that belong to it.
pub proof fn no_merge_is_lost(
    store: StoredAttestations,
    claims: Seq<SignedIntervalInclusionMessageView>,
    key: BucketKey,
)
    requires
        after_merges(store, claims).1 is Ok,
    ensures
        count_in(after_merges(store, claims).0.aggregates, key) == count_in(store.aggregates, key)
            + claims_for(claims, key),
    decreases claims.len(),
{
    if claims.len() > 0 {
        let before = after_merges(store, claims.drop_last());
        no_merge_is_lost(store, claims.drop_last(), key);
        merge_counts_once(before.0, claims.last(), key);
    }
}

/// Claims of one message, each validly signed by its validator, fill one
/// bucket: taken in one after the other into a store that has no such
/// bucket, all of them pass, the bucket counts each of them once, and its
/// aggregate is the sum of their signatures. The row of each claim is stored
/// as well.
///
/// This is said of signatures that decode and whose sums, from the first
/// up to each of them, decode: a bucket whose aggregate cannot be read back
/// takes no further merge.
pub proof fn valid_claims_of_one_message_fill_one_bucket(
    store: StoredAttestations,
    public_keys: Seq<Seq<u8>>,
    claims: Seq<SignedIntervalInclusionMessageView>,
    message: IntervalInclusionMessage,
)
    requires
        0 < claims.len() <= u64::MAX,
        public_keys.len() == claims.len(),
        bucket_of(store.aggregates, bucket_key(message)) is None,
        forall|i: int|
            0 <= i < claims.len() ==> {
                &&& (#[trigger] claims[i]).message == message
                &&& is_valid(public_keys[i], message, claims[i].signature)
                &&& bls_signature_decodes(claims[i].signature)
            },
        forall|i: int|
            0 < i <= claims.len() ==> bls_signature_decodes(
                signature_sum_of(#[trigger] claims.take(i)),
            ),
    ensures
        after_contributions(store, public_keys, claims).1 is Ok,
        bucket_of(
            after_contributions(store, public_keys, claims).0.aggregates,
            bucket_key(message),
        ) == Some(
            aggregate_row(bucket_key(message), signature_sum_of(claims), claims.len() as u64),
        ),
        count_in(after_contributions(store, public_keys, claims).0.aggregates, bucket_key(message))
            == claims.len(),
        stored_signature(
            aggregate_row(bucket_key(message), signature_sum_of(claims), claims.len() as u64),
        ) == Some(signature_sum_of(claims)),
        after_contributions(store, public_keys, claims).0.interval_attestations.len()
            == store.interval_attestations.len() + claims.len(),
    decreases claims.len(),
{
    let key = bucket_key(message);
    let claim = claims.last();
    let public_key = public_keys.last();
    let before = after_contributions(store, public_keys.drop_last(), claims.drop_last());
    let taken = StoredAttestations {
        interval_attestations: before.0.interval_attestations.push(
            price_interval_row(public_key, claim),
        ),
        ..before.0
    };
    assert(claims.take(claims.len() as int) =~= claims);
    written_sum_reads_back(key, signature_sum_of(claims), claims.len() as u64);
    if claims.len() == 1 {
        assert(claims.drop_last().len() == 0);
        assert(before == (store, Ok::<(), AttestationError>(())));
        let row = aggregate_row(key, claim.signature, 1);
        bucket_after_write(taken.aggregates, row, key);
    } else {
        let earlier = claims.drop_last();
        assert forall|i: int| 0 <= i < earlier.len() implies {
            &&& (#[trigger] earlier[i]).message == message
            &&& is_valid(public_keys.drop_last()[i], message, earlier[i].signature)
            &&& bls_signature_decodes(earlier[i].signature)
        } by {
            assert(earlier[i] == claims[i]);
        }
        assert forall|i: int| 0 < i <= earlier.len() implies bls_signature_decodes(
            signature_sum_of(#[trigger] earlier.take(i)),
        ) by {
            assert(earlier.take(i) =~= claims.take(i));
        }
        valid_claims_of_one_message_fill_one_bucket(
            store,
            public_keys.drop_last(),
            earlier,
            message,
        );
        let sum = signature_sum_of(earlier);
        let count = earlier.len() as u64;
        let row = aggregate_row(key, bls_signature_sum(sum, claim.signature), (count + 1) as u64);
        assert(merged_row(Some(aggregate_row(key, sum, count)), claim) == Ok::<
            AggregatePriceIntervalEntryView,
            AttestationError,
        >(row));
        bucket_after_write(taken.aggregates, row, key);
    }
}

/// Taking one interval claim in adds at most its row and touches at most
/// its bucket. A claim that passes is stored and counted once. A claim whose
/// signature does not hold changes nothing.
pub proof fn interval_claim_is_taken_once(
    store: StoredAttestations,
    public_key: Seq<u8>,
    claim: SignedIntervalInclusionMessageView,
    key: BucketKey,
)
    ensures
        !is_valid(public_key, claim.message, claim.signature) ==> after_interval_claim(
            store,
            public_key,
            claim,
        ) == (store, Err::<(), AttestationError>(AttestationError::InvalidSignature)),
        is_valid(public_key, claim.message, claim.signature) ==> after_interval_claim(
            store,
            public_key,
            claim,
        ).0.interval_attestations == store.interval_attestations.push(
            price_interval_row(public_key, claim),
        ),
        store.interval_attestations.is_prefix_of(
            after_interval_claim(store, public_key, claim).0.interval_attestations,
        ),
        after_interval_claim(store, public_key, claim).0.value_attestations
            == store.value_attestations,
        after_interval_claim(store, public_key, claim).1 is Ok ==> count_in(
            after_interval_claim(store, public_key, claim).0.aggregates,
            key,
        ) == count_in(store.aggregates, key) + if bucket_key(claim.message) == key {
            1int
        } else {
            0int
        },
        count_in(store.aggregates, key) <= count_in(
            after_interval_claim(store, public_key, claim).0.aggregates,
            key,
        ),
        bucket_of(store.aggregates, key) is Some ==> bucket_of(
            after_interval_claim(store, public_key, claim).0.aggregates,
            key,
        ) is Some,
        keys_are_unique(store.aggregates) ==> keys_are_unique(
            after_interval_claim(store, public_key, claim).0.aggregates,
        ),
{
    let taken = StoredAttestations {
        interval_attestations: store.interval_attestations.push(
            price_interval_row(public_key, claim),
        ),
        ..store
    };
    merge_counts_once(taken, claim, key);
}

/// Whatever becomes of a run of interval claims, nothing that was stored is
/// lost: the rows of price value claims are untouched, the rows of interval
/// claims that were there are still there and in their places, every bucket
/// that was there is still there with a count that is no lower, and the
/// rows of the buckets stay one per bucket.
pub proof fn contributions_only_add(
    store: StoredAttestations,
    public_keys: Seq<Seq<u8>>,
    claims: Seq<SignedIntervalInclusionMessageView>,
    key: BucketKey,
)
    ensures
        after_contributions(store, public_keys, claims).0.value_attestations
            == store.value_attestations,
        store.interval_attestations.is_prefix_of(
            after_contributions(store, public_keys, claims).0.interval_attestations,
        ),
        count_in(store.aggregates, key) <= count_in(
            after_contributions(store, public_keys, claims).0.aggregates,
            key,
        ),
        bucket_of(store.aggregates, key) is Some ==> bucket_of(
            after_contributions(store, public_keys, claims).0.aggregates,
            key,
        ) is Some,
        keys_are_unique(store.aggregates) ==> keys_are_unique(
            after_contributions(store, public_keys, claims).0.aggregates,
        ),
    decreases claims.len(),
{
    if claims.len() > 0 {
        let before = after_contributions(store, public_keys.drop_last(), claims.drop_last());
        contributions_only_add(store, public_keys.drop_last(), claims.drop_last(), key);
        interval_claim_is_taken_once(before.0, public_keys.last(), claims.last(), key);
    }
}

/// Where every claim of a run passes, each of them is stored and each is
/// counted once, in its own bucket.
pub proof fn accepted_contributions_are_counted(
    store: StoredAttestations,
    public_keys: Seq<Seq<u8>>,
    claims: Seq<SignedIntervalInclusionMessageView>,
    key: BucketKey,
)
    requires
        after_contributions(store, public_keys, claims).1 is Ok,
    ensures
        after_contributions(store, public_keys, claims).0.interval_attestations.len()
            == store.interval_attestations.len() + claims.len(),
        count_in(after_contributions(store, public_keys, claims).0.aggregates, key) == count_in(
            store.aggregates,
            key,
        ) + claims_for(claims, key),
    decreases claims.len(),
{
    if claims.len() > 0 {
        let before = after_contributions(store, public_keys.drop_last(), claims.drop_last());
        accepted_contributions_are_counted(
            store,
            public_keys.drop_last(),
            claims.drop_last(),
            key,
        );
        interval_claim_is_taken_once(before.0, public_keys.last(), claims.last(), key);
    }
}

/// The interval claims of one submission are a run of claims that are all
/// signed with one key.
pub proof fn a_submission_is_a_run_under_one_key(
    store: StoredAttestations,
    public_key: Seq<u8>,
    claims: Seq<SignedIntervalInclusionMessageView>,
)
    ensures
        after_interval_claims(store, public_key, claims) == after_contributions(
            store,
            Seq::new(claims.len(), |i: int| public_key),
            claims,
        ),
    decreases claims.len(),
{
    if claims.len() > 0 {
        let keys = Seq::new(claims.len(), |i: int| public_key);
        assert(keys.drop_last() =~= Seq::new(claims.drop_last().len(), |i: int| public_key));
        a_submission_is_a_run_under_one_key(store, public_key, claims.drop_last());
    }
}

/// Taking claims in and then more claims comes to taking all of them in:
/// the second run starts where the first has ended, and does not start where
/// the first has failed.
pub proof fn runs_compose(
    store: StoredAttestations,
    public_key: Seq<u8>,
    first: Seq<SignedIntervalInclusionMessageView>,
    second: Seq<SignedIntervalInclusionMessageView>,
)
    ensures
        after_interval_claims(store, public_key, first + second) == if after_interval_claims(
            store,
            public_key,
            first,
        ).1 is Err {
            after_interval_claims(store, public_key, first)
        } else {
            after_interval_claims(
                after_interval_claims(store, public_key, first).0,
                public_key,
                second,
            )
        },
    decreases second.len(),
{
    if second.len() == 0 {
        assert(first + second =~= first);
    } else {
        assert((first + second).drop_last() =~= first + second.drop_last());
        assert((first + second).last() == second.last());
        runs_compose(store, public_key, first, second.drop_last());
    }
}

/// Nothing is undone. What the store holds once the first claims of a
/// submission are accepted, it still holds when the submission has ended,
/// however it ended: the same rows in the same places, and every bucket with
/// a count that is no lower.
pub proof fn what_was_accepted_stays(
    store: StoredAttestations,
    public_key: Seq<u8>,
    claims: Seq<SignedIntervalInclusionMessageView>,
    accepted: int,
    key: BucketKey,
)
    requires
        0 <= accepted <= claims.len(),
        after_interval_claims(store, public_key, claims.take(accepted)).1 is Ok,
    ensures
        after_interval_claims(store, public_key, claims.take(accepted)).0.value_attestations
            == after_interval_claims(store, public_key, claims).0.value_attestations,
        after_interval_claims(
            store,
            public_key,
            claims.take(accepted),
        ).0.interval_attestations.is_prefix_of(
            after_interval_claims(store, public_key, claims).0.interval_attestations,
        ),
        count_in(
            after_interval_claims(store, public_key, claims.take(accepted)).0.aggregates,
            key,
        ) <= count_in(after_interval_claims(store, public_key, claims).0.aggregates, key),
        bucket_of(
            after_interval_claims(store, public_key, claims.take(accepted)).0.aggregates,
            key,
        ) is Some ==> bucket_of(
            after_interval_claims(store, public_key, claims).0.aggregates,
            key,
        ) is Some,
{
    let first = claims.take(accepted);
    let second = claims.skip(accepted);
    let reached = after_interval_claims(store, public_key, first).0;
    assert(claims =~= first + second);
    runs_compose(store, public_key, first, second);
    a_submission_is_a_run_under_one_key(reached, public_key, second);
    contributions_only_add(reached, Seq::new(second.len(), |i: int| public_key), second, key);
}

/// A submission only ever adds. Whatever its outcome, the rows that were
/// stored are still there and in their places, every bucket that was there
/// is still there with a count that is no lower, and the rows of the
/// buckets stay one per bucket.
///
/// A submission whose price value claim does not hold changes nothing. One
/// that is accepted has stored the row of its price value claim and of each
/// interval claim, and each interval claim is counted once in its bucket.
pub proof fn a_submission_only_adds(
    store: StoredAttestations,
    message: OracleMessageView,
    key: BucketKey,
)
    ensures
        store.value_attestations.is_prefix_of(
            after_submission(store, message).0.value_attestations,
        ),
        store.interval_attestations.is_prefix_of(
            after_submission(store, message).0.interval_attestations,
        ),
        count_in(store.aggregates, key) <= count_in(
            after_submission(store, message).0.aggregates,
            key,
        ),
        bucket_of(store.aggregates, key) is Some ==> bucket_of(
            after_submission(store, message).0.aggregates,
            key,
        ) is Some,
        keys_are_unique(store.aggregates) ==> keys_are_unique(
            after_submission(store, message).0.aggregates,
        ),
        !is_valid::<PriceValueMessage>(
            message.validator_public_key,
            message.value_message.message,
            message.value_message.signature,
        ) ==> after_submission(store, message) == (
            store,
            Err::<(), AttestationError>(AttestationError::InvalidSignature),
        ),
        after_submission(store, message).1 is Ok ==> {
            &&& after_submission(store, message).0.value_attestations
                == store.value_attestations.push(
                price_value_row(message.validator_public_key, message.value_message),
            )
            &&& after_submission(store, message).0.interval_attestations.len()
                == store.interval_attestations.len() + message.interval_inclusion_messages.len()
            &&& count_in(after_submission(store, message).0.aggregates, key) == count_in(
                store.aggregates,
                key,
            ) + claims_for(message.interval_inclusion_messages, key)
        },
{
    let public_key = message.validator_public_key;
    let claims = message.interval_inclusion_messages;
    if is_valid::<PriceValueMessage>(
        public_key,
        message.value_message.message,
        message.value_message.signature,
    ) {
        let taken = StoredAttestations {
            value_attestations: store.value_attestations.push(
                price_value_row(public_key, message.value_message),
            ),
            ..store
        };
        let keys = Seq::new(claims.len(), |i: int| public_key);
        a_submission_is_a_run_under_one_key(taken, public_key, claims);
        contributions_only_add(taken, keys, claims, key);
        if after_submission(store, message).1 is Ok {
            accepted_contributions_are_counted(taken, keys, claims, key);
        }
    }
}

} // verus!
