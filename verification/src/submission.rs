//! Taking a submission in: each claim is checked, its row is stored, and
//! each interval claim is merged into its bucket.
//!
//! Claims are handled one after the other and each is stored as soon as it
//! has passed. The first claim that fails ends the submission; what was
//! stored for the claims before it stays stored.

use crate::bls::{bls_signature_decodes, PublicKey};
use crate::bucket::{
    merge_into_bucket,
    merged_row,
    rows_read_back,
    stored_signature,
    takes_a_merge,
};
use crate::encoding::{IntervalInclusionMessage, PriceValueMessage};
use crate::entry::{
    bucket_key,
    price_interval_row,
    price_value_row,
    AggregatePriceIntervalEntryView,
    PriceIntervalEntry,
    PriceValueEntry,
};
use crate::error::AttestationError;
use crate::protocol::{
    following,
    next_request,
    opening_of_claim,
    Progress,
    Reply,
    ReplyView,
    Request,
    RequestView,
};
use crate::signed::{
    is_valid,
    validate_message,
    OracleMessage,
    OracleMessageView,
    SignedIntervalInclusionMessage,
    SignedIntervalInclusionMessageView,
    SignedPriceValueMessage,
    SignedPriceValueMessageView,
};
use crate::store::{bucket_of, with_bucket, AttestationStore, StoredAttestations};
use vstd::prelude::*;

verus! {

/// The store and the outcome after a price value claim signed with
/// `public_key` is taken in: its row is added where the signature holds, and
/// nothing changes where it does not.
pub open spec fn after_value_claim(
    store: StoredAttestations,
    public_key: Seq<u8>,
    claim: SignedPriceValueMessageView,
) -> (StoredAttestations, Result<(), AttestationError>) {
    if is_valid::<PriceValueMessage>(public_key, claim.message, claim.signature) {
        (
            StoredAttestations {
                value_attestations: store.value_attestations.push(
                    price_value_row(public_key, claim),
                ),
                ..store
            },
            Ok(()),
        )
    } else {
        (store, Err(AttestationError::InvalidSignature))
    }
}

/// The store and the outcome after `claim` is merged into its bucket: the
/// bucket holds the merged row, or nothing changes where the merge fails.
pub open spec fn after_merge(
    store: StoredAttestations,
    claim: SignedIntervalInclusionMessageView,
) -> (StoredAttestations, Result<(), AttestationError>) {
    match merged_row(bucket_of(store.aggregates, bucket_key(claim.message)), claim) {
        Ok(row) => (
            StoredAttestations { aggregates: with_bucket(store.aggregates, row), ..store },
            Ok(()),
        ),
        Err(e) => (store, Err(e)),
    }
}

/// The store and the outcome after an interval claim signed with
/// `public_key` is taken in. Where the signature holds, the row of the claim
/// is added and the claim is then merged into its bucket; the row stays
/// where the merge fails.
pub open spec fn after_interval_claim(
    store: StoredAttestations,
    public_key: Seq<u8>,
    claim: SignedIntervalInclusionMessageView,
) -> (StoredAttestations, Result<(), AttestationError>) {
    if is_valid::<IntervalInclusionMessage>(public_key, claim.message, claim.signature) {
        after_merge(
            StoredAttestations {
                interval_attestations: store.interval_attestations.push(
                    price_interval_row(public_key, claim),
                ),
                ..store
            },
            claim,
        )
    } else {
        (store, Err(AttestationError::InvalidSignature))
    }
}

/// The store and the outcome after the interval claims are taken in, in
/// their order and up to the first that fails.
pub open spec fn after_interval_claims(
    store: StoredAttestations,
    public_key: Seq<u8>,
    claims: Seq<SignedIntervalInclusionMessageView>,
) -> (StoredAttestations, Result<(), AttestationError>)
    decreases claims.len(),
{
    if claims.len() == 0 {
        (store, Ok(()))
    } else {
        let before = after_interval_claims(store, public_key, claims.drop_last());
        if before.1 is Err {
            before
        } else {
            after_interval_claim(before.0, public_key, claims.last())
        }
    }
}

/// Once a claim has failed, the claims after it change nothing.
pub proof fn failure_ends_the_run(
    store: StoredAttestations,
    public_key: Seq<u8>,
    claims: Seq<SignedIntervalInclusionMessageView>,
    taken: int,
)
    requires
        0 <= taken <= claims.len(),
        after_interval_claims(store, public_key, claims.take(taken)).1 is Err,
    ensures
        after_interval_claims(store, public_key, claims) == after_interval_claims(
            store,
            public_key,
            claims.take(taken),
        ),
    decreases claims.len(),
{
    if taken == claims.len() {
        assert(claims.take(taken) =~= claims);
    } else {
        assert(claims.drop_last().take(taken) =~= claims.take(taken));
        failure_ends_the_run(store, public_key, claims.drop_last(), taken);
    }
}

/// The store and the outcome after a whole submission is taken in: the price
/// value claim first, then the interval claims.
pub open spec fn after_submission(store: StoredAttestations, message: OracleMessageView) -> (
    StoredAttestations,
    Result<(), AttestationError>,
) {
    let first = after_value_claim(store, message.validator_public_key, message.value_message);
    if first.1 is Err {
        first
    } else {
        after_interval_claims(
            first.0,
            message.validator_public_key,
            message.interval_inclusion_messages,
        )
    }
}

/// Writing a row that can be read back into rows that can all be read back
/// leaves rows that can all be read back.
pub proof fn write_keeps_rows_readable(
    rows: Seq<AggregatePriceIntervalEntryView>,
    row: AggregatePriceIntervalEntryView,
)
    requires
        rows_read_back(rows),
        stored_signature(row) is Some,
    ensures
        rows_read_back(with_bucket(rows, row)),
{
    let after = with_bucket(rows, row);
    assert forall|i: int| 0 <= i < after.len() implies stored_signature(#[trigger] after[i])
        is Some by {
        if after[i] != row {
            assert(after[i] == rows[i]);
        }
    }
}

/// Checks a price value claim and makes the row under which it is stored.
pub fn price_value_attestation(
    message: &SignedPriceValueMessage,
    validator_public_key: &PublicKey,
) -> (row: Result<PriceValueEntry, AttestationError>)
    ensures
        row is Ok <==> is_valid(validator_public_key@, message.message, message.signature@),
        row matches Ok(r) ==> r@ == price_value_row(validator_public_key@, message@),
        row matches Err(e) ==> e == AttestationError::InvalidSignature,
{
    if validate_message(validator_public_key, &message.message, &message.signature) {
        Ok(PriceValueEntry::new(validator_public_key, message))
    } else {
        Err(AttestationError::InvalidSignature)
    }
}

/// Checks an interval claim and makes the row under which it is stored.
pub fn price_interval_attestation(
    message: &SignedIntervalInclusionMessage,
    validator_public_key: &PublicKey,
) -> (row: Result<PriceIntervalEntry, AttestationError>)
    ensures
        row is Ok <==> is_valid(validator_public_key@, message.message, message.signature@),
        row matches Ok(r) ==> r@ == price_interval_row(validator_public_key@, message@),
        row matches Err(e) ==> e == AttestationError::InvalidSignature,
        row is Ok ==> bls_signature_decodes(message.signature@),
{
    if validate_message(validator_public_key, &message.message, &message.signature) {
        Ok(PriceIntervalEntry::new(validator_public_key, message))
    } else {
        Err(AttestationError::InvalidSignature)
    }
}

/// Checks a price value claim and stores its row.
pub fn save_price_value_attestation(
    store: &mut AttestationStore,
    message: &SignedPriceValueMessage,
    validator_public_key: &PublicKey,
) -> (saved: Result<(), AttestationError>)
    ensures
        (final(store)@, saved) == after_value_claim(
            old(store)@,
            validator_public_key@,
            message@,
        ),
{
    let row = price_value_attestation(message, validator_public_key)?;
    store.insert_value_attestation(row);
    Ok(())
}

/// Merges an interval claim into its bucket: reads the row of the bucket,
/// folds the signature of the claim into it and writes the row back. The
/// bucket is made, at a count of one, where it was not there.
pub fn extend_or_create_aggregate_interval_attestation(
    store: &mut AttestationStore,
    message: &SignedIntervalInclusionMessage,
) -> (merged: Result<(), AttestationError>)
    ensures
        (final(store)@, merged) == after_merge(old(store)@, message@),
        merged is Ok <==> takes_a_merge(
            bucket_of(old(store)@.aggregates, bucket_key(message.message)),
        ) && bls_signature_decodes(message.signature@),
        rows_read_back(old(store)@.aggregates) ==> rows_read_back(final(store)@.aggregates),
{
    let row = merge_into_bucket(store.get_aggregate_bucket(message.message.key()), message)?;
    proof {
        if rows_read_back(store@.aggregates) {
            write_keeps_rows_readable(store@.aggregates, row@);
        }
    }
    store.upsert_aggregate_bucket(row);
    Ok(())
}

/// Checks an interval claim, stores its row and merges it into its bucket.
pub fn save_price_interval_attestation(
    store: &mut AttestationStore,
    message: &SignedIntervalInclusionMessage,
    validator_public_key: &PublicKey,
) -> (saved: Result<(), AttestationError>)
    ensures
        (final(store)@, saved) == after_interval_claim(
            old(store)@,
            validator_public_key@,
            message@,
        ),
        saved is Ok <==> is_valid(validator_public_key@, message.message, message.signature@)
            && takes_a_merge(bucket_of(old(store)@.aggregates, bucket_key(message.message))),
        rows_read_back(old(store)@.aggregates) ==> rows_read_back(final(store)@.aggregates),
{
    let row = price_interval_attestation(message, validator_public_key)?;
    store.insert_interval_attestation(row);
    extend_or_create_aggregate_interval_attestation(store, message)
}

/// Takes the interval claims in, one after the other, and stops at the
/// first that fails.
pub fn save_price_interval_attestations(
    store: &mut AttestationStore,
    messages: &Vec<SignedIntervalInclusionMessage>,
    validator_public_key: &PublicKey,
) -> (saved: Result<(), AttestationError>)
    ensures
        (final(store)@, saved) == after_interval_claims(
            old(store)@,
            validator_public_key@,
            messages@.map_values(|m: SignedIntervalInclusionMessage| m@),
        ),
        rows_read_back(old(store)@.aggregates) ==> rows_read_back(final(store)@.aggregates),
{
    let ghost before = store@;
    let ghost claims = messages@.map_values(|m: SignedIntervalInclusionMessage| m@);
    let mut i: usize = 0;
    assert(claims.take(0) =~= Seq::<SignedIntervalInclusionMessageView>::empty());
    while i < messages.len()
        invariant
            i <= messages.len(),
            before == old(store)@,
            rows_read_back(before.aggregates) ==> rows_read_back(store@.aggregates),
            claims == messages@.map_values(|m: SignedIntervalInclusionMessage| m@),
            after_interval_claims(before, validator_public_key@, claims.take(i as int)) == (
                store@,
                Ok::<(), AttestationError>(()),
            ),
        decreases messages.len() - i,
    {
        let step = save_price_interval_attestation(store, &messages[i], validator_public_key);
        proof {
            let taken = claims.take(i + 1);
            assert(taken.drop_last() =~= claims.take(i as int));
            assert(taken.last() == messages[i as int]@);
            assert(after_interval_claims(before, validator_public_key@, taken) == (store@, step));
        }
        if let Err(e) = step {
            proof {
                failure_ends_the_run(before, validator_public_key@, claims, i + 1);
            }
            return Err(e);
        }
        i += 1;
    }
    assert(claims.take(i as int) =~= claims);
    Ok(())
}

/// Whether the interval claims before claim `claim` are through, all of
/// them accepted, and have left the store at `store`.
pub open spec fn claims_before_are_through(
    message: OracleMessageView,
    start: StoredAttestations,
    claim: int,
    store: StoredAttestations,
) -> bool {
    let first = after_value_claim(start, message.validator_public_key, message.value_message);
    &&& first.1 is Ok
    &&& 0 <= claim <= message.interval_inclusion_messages.len()
    &&& after_interval_claims(
        first.0,
        message.validator_public_key,
        message.interval_inclusion_messages.take(claim),
    ) == (store, Ok::<(), AttestationError>(()))
}

/// Whether the interval claims before claim `claim` are through, the
/// signature of claim `claim` holds, and its row has been added, which has
/// left the store at `store`.
pub open spec fn claim_is_stored(
    message: OracleMessageView,
    start: StoredAttestations,
    claim: int,
    store: StoredAttestations,
) -> bool {
    let public_key = message.validator_public_key;
    let claims = message.interval_inclusion_messages;
    let first = after_value_claim(start, public_key, message.value_message);
    let before = after_interval_claims(first.0, public_key, claims.take(claim));
    &&& first.1 is Ok
    &&& 0 <= claim < claims.len()
    &&& before.1 is Ok
    &&& is_valid::<IntervalInclusionMessage>(
        public_key,
        claims[claim].message,
        claims[claim].signature,
    )
    &&& store == StoredAttestations {
        interval_attestations: before.0.interval_attestations.push(
            price_interval_row(public_key, claims[claim]),
        ),
        ..before.0
    }
}

/// Whether a handling of `message` that began on the store `start` can
/// stand at `progress`, with `reply` in hand and the store at `store`.
pub open spec fn on_track(
    message: OracleMessageView,
    start: StoredAttestations,
    progress: Progress,
    reply: ReplyView,
    store: StoredAttestations,
) -> bool {
    let claims = message.interval_inclusion_messages;
    match progress {
        Progress::Start => reply == ReplyView::Nothing && store == start,
        Progress::ValueRow => reply == ReplyView::Written && claims_before_are_through(
            message,
            start,
            0,
            store,
        ),
        Progress::IntervalRow { claim } => reply == ReplyView::Written && claim_is_stored(
            message,
            start,
            claim as int,
            store,
        ),
        Progress::BucketLookup { claim } => claim_is_stored(message, start, claim as int, store)
            && reply == ReplyView::Bucket(
            bucket_of(store.aggregates, bucket_key(claims[claim as int].message)),
        ),
        Progress::BucketWrite { claim } => reply == ReplyView::Written
            && claims_before_are_through(message, start, claim + 1, store),
        Progress::Done => false,
    }
}

/// How many requests a handling that stands at `progress` can still make,
/// at most.
pub open spec fn requests_left(message: OracleMessageView, progress: Progress) -> nat {
    let claims = message.interval_inclusion_messages.len();
    match progress {
        Progress::Start => 3 * claims + 3,
        Progress::ValueRow => 3 * claims + 2,
        Progress::IntervalRow { claim } => if claim < claims {
            (3 * (claims - claim) + 1) as nat
        } else {
            0
        },
        Progress::BucketLookup { claim } => if claim < claims {
            (3 * (claims - claim)) as nat
        } else {
            0
        },
        Progress::BucketWrite { claim } => if claim < claims {
            (3 * (claims - claim) - 1) as nat
        } else {
            0
        },
        Progress::Done => 0,
    }
}

/// The store once `request` is carried out on it, and the reply that the
/// store gives.
pub open spec fn carried_out(store: StoredAttestations, request: RequestView) -> (
    StoredAttestations,
    ReplyView,
) {
    match request {
        RequestView::InsertValueAttestation(row) => (
            StoredAttestations {
                value_attestations: store.value_attestations.push(row),
                ..store
            },
            ReplyView::Written,
        ),
        RequestView::InsertIntervalAttestation(row) => (
            StoredAttestations {
                interval_attestations: store.interval_attestations.push(row),
                ..store
            },
            ReplyView::Written,
        ),
        RequestView::GetAggregateBucket(key) => (
            store,
            ReplyView::Bucket(bucket_of(store.aggregates, key)),
        ),
        RequestView::InsertAggregateBucket(row) => (
            StoredAttestations { aggregates: with_bucket(store.aggregates, row), ..store },
            ReplyView::Written,
        ),
        RequestView::UpdateAggregateBucket(row) => (
            StoredAttestations { aggregates: with_bucket(store.aggregates, row), ..store },
            ReplyView::Written,
        ),
        RequestView::Finish(_) => (store, ReplyView::Nothing),
    }
}

/// Handling a submission request by request comes to what taking it in
/// claim by claim comes to. A handling that is on track stays on track when
/// its next request is carried out, with fewer requests left; and when it
/// finishes, the store and the outcome are those of the submission.
pub proof fn handling_stays_on_track(
    message: OracleMessageView,
    start: StoredAttestations,
    progress: Progress,
    reply: ReplyView,
    store: StoredAttestations,
)
    requires
        on_track(message, start, progress, reply, store),
        message.interval_inclusion_messages.len() <= usize::MAX,
    ensures
        following(message, progress, reply).1 matches RequestView::Finish(outcome) ==> (
            store,
            outcome,
        ) == after_submission(start, message),
        !(following(message, progress, reply).1 is Finish) ==> {
            &&& on_track(
                message,
                start,
                following(message, progress, reply).0,
                carried_out(store, following(message, progress, reply).1).1,
                carried_out(store, following(message, progress, reply).1).0,
            )
            &&& requests_left(message, following(message, progress, reply).0) < requests_left(
                message,
                progress,
            )
        },
{
    let public_key = message.validator_public_key;
    let claims = message.interval_inclusion_messages;
    let first = after_value_claim(start, public_key, message.value_message);
    let next = following(message, progress, reply);
    let done = carried_out(store, next.1);
    match progress {
        Progress::Start => {
            assert(claims.take(0) =~= Seq::<SignedIntervalInclusionMessageView>::empty());
            if first.1 is Err {
                assert(after_submission(start, message) == first);
            } else {
                assert(done.0 == first.0);
                assert(claims_before_are_through(message, start, 0, done.0));
            }
        },
        Progress::ValueRow => {
            claim_opens(message, start, 0, store);
        },
        Progress::IntervalRow { claim } => {
            assert(next.0 == Progress::BucketLookup { claim });
            assert(done.0 == store);
        },
        Progress::BucketLookup { claim } => {
            let at = claim as int;
            let taken = claims.take(at + 1);
            assert(taken.drop_last() =~= claims.take(at));
            assert(taken.last() == claims[at]);
            let merged = after_merge(store, claims[at]);
            assert(after_interval_claims(first.0, public_key, taken) == merged);
            if merged.1 is Err {
                failure_ends_the_run(first.0, public_key, claims, at + 1);
            } else {
                assert(done.0 == merged.0);
                assert(claims_before_are_through(message, start, at + 1, done.0));
            }
        },
        Progress::BucketWrite { claim } => {
            claim_opens(message, start, claim + 1, store);
        },
        Progress::Done => {},
    }
}

/// What opening claim `claim` comes to, once the claims before it are
/// through.
proof fn claim_opens(
    message: OracleMessageView,
    start: StoredAttestations,
    claim: int,
    store: StoredAttestations,
)
    requires
        claims_before_are_through(message, start, claim, store),
        message.interval_inclusion_messages.len() <= usize::MAX,
    ensures
        opening_of_claim(message, claim).1 matches RequestView::Finish(outcome) ==> (
            store,
            outcome,
        ) == after_submission(start, message),
        opening_of_claim(message, claim).1 matches RequestView::InsertIntervalAttestation(row)
            ==> claim_is_stored(
            message,
            start,
            claim,
            StoredAttestations {
                interval_attestations: store.interval_attestations.push(row),
                ..store
            },
        ),
        !(opening_of_claim(message, claim).1 is Finish) ==> opening_of_claim(message, claim).1
            is InsertIntervalAttestation && opening_of_claim(message, claim).0
            == (Progress::IntervalRow { claim: claim as usize }) && claim
            < message.interval_inclusion_messages.len(),
{
    let public_key = message.validator_public_key;
    let claims = message.interval_inclusion_messages;
    let first = after_value_claim(start, public_key, message.value_message);
    if claim >= claims.len() {
        assert(claims.take(claim) =~= claims);
    } else if !is_valid::<IntervalInclusionMessage>(
        public_key,
        claims[claim].message,
        claims[claim].signature,
    ) {
        let taken = claims.take(claim + 1);
        assert(taken.drop_last() =~= claims.take(claim));
        assert(taken.last() == claims[claim]);
        failure_ends_the_run(first.0, public_key, claims, claim + 1);
    }
}

/// Takes a submission in: the price value claim, then each interval claim.
/// A price value claim that fails rejects the submission whole. An interval
/// claim that fails ends it, and leaves stored what came before.
///
/// The submission is handled request by request, as `next_request` has it,
/// and each request is carried out on `store`.
pub fn post_oracle_message(store: &mut AttestationStore, message: &OracleMessage) -> (posted:
    Result<(), AttestationError>)
    ensures
        (final(store)@, posted) == after_submission(old(store)@, message@),
        rows_read_back(old(store)@.aggregates) ==> rows_read_back(final(store)@.aggregates),
{
    let ghost start = store@;
    let mut progress = Progress::Start;
    let mut reply = Reply::Nothing;
    loop
        invariant
            start == old(store)@,
            on_track(message@, start, progress, reply@, store@),
            rows_read_back(start.aggregates) ==> rows_read_back(store@.aggregates),
        decreases requests_left(message@, progress),
    {
        proof {
            assert(message@.interval_inclusion_messages.len()
                == message.interval_inclusion_messages.len());
            handling_stays_on_track(message@, start, progress, reply@, store@);
        }
        let (next, request) = next_request(message, progress, reply);
        match request {
            Request::InsertValueAttestation(row) => {
                store.insert_value_attestation(row);
                reply = Reply::Written;
            },
            Request::InsertIntervalAttestation(row) => {
                store.insert_interval_attestation(row);
                reply = Reply::Written;
            },
            Request::GetAggregateBucket(key) => {
                reply =
                Reply::Bucket(
                    match store.get_aggregate_bucket(key) {
                        Some(row) => Some(row.clone()),
                        None => None,
                    },
                );
            },
            Request::InsertAggregateBucket(row) => {
                proof {
                    if rows_read_back(store@.aggregates) {
                        write_keeps_rows_readable(store@.aggregates, row@);
                    }
                }
                store.upsert_aggregate_bucket(row);
                reply = Reply::Written;
            },
            Request::UpdateAggregateBucket(row) => {
                proof {
                    if rows_read_back(store@.aggregates) {
                        write_keeps_rows_readable(store@.aggregates, row@);
                    }
                }
                store.upsert_aggregate_bucket(row);
                reply = Reply::Written;
            },
            Request::Finish(outcome) => {
                return outcome;
            },
        }
        progress = next;
    }
}

} // verus!
