//! The handling of one submission, as a sequence of requests to the
//! repository.
//!
//! Whoever holds the repository asks `next_request` what to do, does it, and
//! comes back with the repository's reply, until the request is to finish.
//! All that is decided on the way is decided here: which claims pass, what is
//! stored for them, what a bucket holds after a merge, and where the
//! handling ends.
//!
//! The lookup of a bucket and the write that follows it belong together:
//! between the two, no other merge into that bucket may run.

use crate::bls::PublicKey;
use crate::bucket::{merge_into_bucket, merged_row, stored_signature};
use crate::encoding::{IntervalInclusionMessage, PriceValueMessage};
use crate::entry::{
    bucket_key,
    price_interval_row,
    price_value_row,
    AggregatePriceIntervalEntry,
    AggregatePriceIntervalEntryView,
    BucketKey,
    PriceIntervalEntry,
    PriceIntervalEntryView,
    PriceValueEntry,
    PriceValueEntryView,
};
use crate::error::AttestationError;
use crate::signed::{is_valid, validate_message, OracleMessage, OracleMessageView};
use vstd::prelude::*;

verus! {

/// Where the handling of a submission stands: which request was made last.
#[derive(Clone, Copy, Debug, PartialEq, Eq, Structural)]
pub enum Progress {
    /// No request was made yet.
    Start,
    /// The row of the price value claim was handed out.
    ValueRow,
    /// The row of interval claim `claim` was handed out.
    IntervalRow { claim: usize },
    /// The bucket of interval claim `claim` was asked for.
    BucketLookup { claim: usize },
    /// The merged row of the bucket of interval claim `claim` was handed
    /// out.
    BucketWrite { claim: usize },
    /// The handling has ended.
    Done,
}

/// What the repository answered to the last request.
#[derive(Debug, PartialEq, Eq)]
pub enum Reply {
    /// Nothing: no request was made yet.
    Nothing,
    /// The row was written.
    Written,
    /// The row of the bucket that was asked for, if it has one.
    Bucket(Option<AggregatePriceIntervalEntry>),
    /// The repository failed.
    Failed,
}

/// What is to be done next.
#[derive(Debug, PartialEq, Eq)]
pub enum Request {
    /// Add the row of a price value claim.
    InsertValueAttestation(PriceValueEntry),
    /// Add the row of an interval claim.
    InsertIntervalAttestation(PriceIntervalEntry),
    /// Look the row of a bucket up.
    GetAggregateBucket(BucketKey),
    /// Add the row of a bucket that had none.
    InsertAggregateBucket(AggregatePriceIntervalEntry),
    /// Put the row of a bucket in place of the row that it has.
    UpdateAggregateBucket(AggregatePriceIntervalEntry),
    /// Nothing more: the submission is accepted, or rejected for the reason
    /// given.
    Finish(Result<(), AttestationError>),
}

/// A reply, with the row that it carries as its view.
pub enum ReplyView {
    Nothing,
    Written,
    Bucket(Option<AggregatePriceIntervalEntryView>),
    Failed,
}

/// A request, with the row that it carries as its view.
pub enum RequestView {
    InsertValueAttestation(PriceValueEntryView),
    InsertIntervalAttestation(PriceIntervalEntryView),
    GetAggregateBucket(BucketKey),
    InsertAggregateBucket(AggregatePriceIntervalEntryView),
    UpdateAggregateBucket(AggregatePriceIntervalEntryView),
    Finish(Result<(), AttestationError>),
}

impl View for Reply {
    type V = ReplyView;

    open spec fn view(&self) -> ReplyView {
        match *self {
            Reply::Nothing => ReplyView::Nothing,
            Reply::Written => ReplyView::Written,
            Reply::Bucket(Some(row)) => ReplyView::Bucket(Some(row@)),
            Reply::Bucket(None) => ReplyView::Bucket(None),
            Reply::Failed => ReplyView::Failed,
        }
    }
}

impl View for Request {
    type V = RequestView;

    open spec fn view(&self) -> RequestView {
        match *self {
            Request::InsertValueAttestation(row) => RequestView::InsertValueAttestation(row@),
            Request::InsertIntervalAttestation(row) => RequestView::InsertIntervalAttestation(row@),
            Request::GetAggregateBucket(key) => RequestView::GetAggregateBucket(key),
            Request::InsertAggregateBucket(row) => RequestView::InsertAggregateBucket(row@),
            Request::UpdateAggregateBucket(row) => RequestView::UpdateAggregateBucket(row@),
            Request::Finish(outcome) => RequestView::Finish(outcome),
        }
    }
}

/// The request that opens the handling of interval claim `claim`: to store
/// its row where its signature holds, to reject the submission where it
/// does not, and to accept the submission where no claim is left.
pub open spec fn opening_of_claim(message: OracleMessageView, claim: int) -> (
    Progress,
    RequestView,
) {
    let claims = message.interval_inclusion_messages;
    if claim < 0 || claim >= claims.len() {
        (Progress::Done, RequestView::Finish(Ok(())))
    } else if is_valid::<IntervalInclusionMessage>(
        message.validator_public_key,
        claims[claim].message,
        claims[claim].signature,
    ) {
        (
            Progress::IntervalRow { claim: claim as usize },
            RequestView::InsertIntervalAttestation(
                price_interval_row(message.validator_public_key, claims[claim]),
            ),
        )
    } else {
        (Progress::Done, RequestView::Finish(Err(AttestationError::InvalidSignature)))
    }
}

/// The request that follows, and where the handling then stands.
///
/// The price value claim comes first, and a submission whose price value
/// claim does not hold is rejected before anything is stored. The interval
/// claims follow in their order: the row of a claim is stored, its bucket is
/// looked up, and the merged row is written, as a new row where the bucket
/// had none. A claim that fails ends the handling, with nothing undone. A
/// reply that tells of a failure, or that does not answer the request that
/// was made, ends it as a storage failure.
pub open spec fn following(message: OracleMessageView, progress: Progress, reply: ReplyView) -> (
    Progress,
    RequestView,
) {
    let claims = message.interval_inclusion_messages;
    let failure = (Progress::Done, RequestView::Finish(Err(AttestationError::StorageFailure)));
    match (progress, reply) {
        (Progress::Start, ReplyView::Nothing) => if is_valid::<PriceValueMessage>(
            message.validator_public_key,
            message.value_message.message,
            message.value_message.signature,
        ) {
            (
                Progress::ValueRow,
                RequestView::InsertValueAttestation(
                    price_value_row(message.validator_public_key, message.value_message),
                ),
            )
        } else {
            (Progress::Done, RequestView::Finish(Err(AttestationError::InvalidSignature)))
        },
        (Progress::ValueRow, ReplyView::Written) => opening_of_claim(message, 0),
        (Progress::IntervalRow { claim }, ReplyView::Written) => if claim < claims.len() {
            (
                Progress::BucketLookup { claim },
                RequestView::GetAggregateBucket(bucket_key(claims[claim as int].message)),
            )
        } else {
            failure
        },
        (Progress::BucketLookup { claim }, ReplyView::Bucket(existing)) => if claim
            < claims.len() {
            match merged_row(existing, claims[claim as int]) {
                Ok(row) => (
                    Progress::BucketWrite { claim },
                    if existing is None {
                        RequestView::InsertAggregateBucket(row)
                    } else {
                        RequestView::UpdateAggregateBucket(row)
                    },
                ),
                Err(e) => (Progress::Done, RequestView::Finish(Err(e))),
            }
        } else {
            failure
        },
        (Progress::BucketWrite { claim }, ReplyView::Written) => if claim < claims.len() {
            opening_of_claim(message, claim + 1)
        } else {
            failure
        },
        _ => failure,
    }
}

fn open_claim(message: &OracleMessage, claim: usize) -> (next: (Progress, Request))
    ensures
        (next.0, next.1@) == opening_of_claim(message@, claim as int),
{
    if claim >= message.interval_inclusion_messages.len() {
        return (Progress::Done, Request::Finish(Ok(())));
    }
    let signed = &message.interval_inclusion_messages[claim];
    assert(message@.interval_inclusion_messages[claim as int] == signed@);
    if validate_message(&message.validator_public_key, &signed.message, &signed.signature) {
        (
            Progress::IntervalRow { claim },
            Request::InsertIntervalAttestation(
                PriceIntervalEntry::new(&message.validator_public_key, signed),
            ),
        )
    } else {
        (Progress::Done, Request::Finish(Err(AttestationError::InvalidSignature)))
    }
}

/// Says what is to be done next for the submission `message`, given the
/// request that was made last and the repository's reply to it. The first
/// call takes `Progress::Start` and `Reply::Nothing`; each later call takes
/// the progress that the call before returned.
pub fn next_request(message: &OracleMessage, progress: Progress, reply: Reply) -> (next: (
    Progress,
    Request,
))
    ensures
        (next.0, next.1@) == following(message@, progress, reply@),
        next.1@ matches RequestView::InsertAggregateBucket(row) ==> stored_signature(row)
            is Some,
        next.1@ matches RequestView::UpdateAggregateBucket(row) ==> stored_signature(row)
            is Some,
{
    let claims = &message.interval_inclusion_messages;
    let failure = (Progress::Done, Request::Finish(Err(AttestationError::StorageFailure)));
    match (progress, reply) {
        (Progress::Start, Reply::Nothing) => {
            if validate_message(
                &message.validator_public_key,
                &message.value_message.message,
                &message.value_message.signature,
            ) {
                (
                    Progress::ValueRow,
                    Request::InsertValueAttestation(
                        PriceValueEntry::new(&message.validator_public_key, &message.value_message),
                    ),
                )
            } else {
                (Progress::Done, Request::Finish(Err(AttestationError::InvalidSignature)))
            }
        },
        (Progress::ValueRow, Reply::Written) => open_claim(message, 0),
        (Progress::IntervalRow { claim }, Reply::Written) => {
            if claim < claims.len() {
                assert(message@.interval_inclusion_messages[claim as int] == claims[claim as int]@);
                (
                    Progress::BucketLookup { claim },
                    Request::GetAggregateBucket(claims[claim].message.key()),
                )
            } else {
                failure
            }
        },
        (Progress::BucketLookup { claim }, Reply::Bucket(existing)) => {
            if claim < claims.len() {
                assert(message@.interval_inclusion_messages[claim as int] == claims[claim as int]@);
                match merge_into_bucket(existing.as_ref(), &claims[claim]) {
                    Ok(row) => (
                        Progress::BucketWrite { claim },
                        if existing.is_none() {
                            Request::InsertAggregateBucket(row)
                        } else {
                            Request::UpdateAggregateBucket(row)
                        },
                    ),
                    Err(e) => (Progress::Done, Request::Finish(Err(e))),
                }
            } else {
                failure
            }
        },
        (Progress::BucketWrite { claim }, Reply::Written) => {
            if claim < claims.len() {
                open_claim(message, claim + 1)
            } else {
                failure
            }
        },
        _ => failure,
    }
}

} // verus!
