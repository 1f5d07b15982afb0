//! The repository of attestations, kept in memory: the rows of the accepted
//! claims in the order in which they came, and one row per bucket.
//!
//! Rows are only ever added, and a bucket row is replaced by the row that a
//! merge computed from it. A store that starts empty never holds two rows of
//! one bucket.
//!
//! A store is changed through an exclusive reference only. The lookup of a
//! bucket and the write that follows it therefore never interleave with
//! another merge into the same store, and no merge is lost.

use crate::entry::{
    AggregatePriceIntervalEntry,
    AggregatePriceIntervalEntryView,
    BucketKey,
    PriceIntervalEntry,
    PriceIntervalEntryView,
    PriceValueEntry,
    PriceValueEntryView,
};
use vstd::prelude::*;

verus! {

/// What a store holds.
pub struct StoredAttestations {
    pub value_attestations: Seq<PriceValueEntryView>,
    pub interval_attestations: Seq<PriceIntervalEntryView>,
    pub aggregates: Seq<AggregatePriceIntervalEntryView>,
}

/// Whether row `i` is the first row of the bucket `key`.
pub open spec fn is_first_with_key(
    rows: Seq<AggregatePriceIntervalEntryView>,
    key: BucketKey,
    i: int,
) -> bool {
    &&& 0 <= i < rows.len()
    &&& rows[i].key() == key
    &&& forall|j: int| 0 <= j < i ==> (#[trigger] rows[j]).key() != key
}

/// Where the row of the bucket `key` stands, if it has one.
pub open spec fn bucket_position(
    rows: Seq<AggregatePriceIntervalEntryView>,
    key: BucketKey,
) -> Option<int> {
    if exists|i: int| is_first_with_key(rows, key, i) {
        Some(choose|i: int| is_first_with_key(rows, key, i))
    } else {
        None
    }
}

/// The row of the bucket `key`, if it has one.
pub open spec fn bucket_of(
    rows: Seq<AggregatePriceIntervalEntryView>,
    key: BucketKey,
) -> Option<AggregatePriceIntervalEntryView> {
    match bucket_position(rows, key) {
        Some(i) => Some(rows[i]),
        None => None,
    }
}

/// The rows once `row` is written: in place of the row of its bucket, or
/// after all others where the bucket had none.
pub open spec fn with_bucket(
    rows: Seq<AggregatePriceIntervalEntryView>,
    row: AggregatePriceIntervalEntryView,
) -> Seq<AggregatePriceIntervalEntryView> {
    match bucket_position(rows, row.key()) {
        Some(i) => rows.update(i, row),
        None => rows.push(row),
    }
}

/// Whether no two rows belong to one bucket.
pub open spec fn keys_are_unique(rows: Seq<AggregatePriceIntervalEntryView>) -> bool {
    forall|i: int, j: int|
        0 <= i < j < rows.len() ==> (#[trigger] rows[i]).key() != (#[trigger] rows[j]).key()
}

/// A bucket has one first row.
pub proof fn first_with_key_is_one(
    rows: Seq<AggregatePriceIntervalEntryView>,
    key: BucketKey,
    i: int,
)
    requires
        is_first_with_key(rows, key, i),
    ensures
        bucket_position(rows, key) == Some(i),
        bucket_of(rows, key) == Some(rows[i]),
{
    let c = choose|c: int| is_first_with_key(rows, key, c);
    if c < i {
        assert(rows[c].key() != key);
    }
    if i < c {
        assert(rows[i].key() != key);
    }
}

/// A bucket of which no row speaks has no row.
pub proof fn absent_key_has_no_row(rows: Seq<AggregatePriceIntervalEntryView>, key: BucketKey)
    requires
        forall|j: int| 0 <= j < rows.len() ==> (#[trigger] rows[j]).key() != key,
    ensures
        bucket_position(rows, key) is None,
        bucket_of(rows, key) is None,
{
}

/// After a row is written, its bucket holds it and every other bucket holds
/// what it held.
pub proof fn bucket_after_write(
    rows: Seq<AggregatePriceIntervalEntryView>,
    row: AggregatePriceIntervalEntryView,
    key: BucketKey,
)
    ensures
        bucket_of(with_bucket(rows, row), key) == if key == row.key() {
            Some(row)
        } else {
            bucket_of(rows, key)
        },
{
    let after = with_bucket(rows, row);
    match bucket_position(rows, row.key()) {
        Some(p) => {
            assert(is_first_with_key(rows, row.key(), p));
            assert forall|j: int| 0 <= j < rows.len() implies (#[trigger] after[j]).key()
                == rows[j].key() by {}
            if key == row.key() {
                assert(is_first_with_key(after, key, p)) by {
                    assert forall|j: int| 0 <= j < p implies (#[trigger] after[j]).key() != key by {
                        assert(rows[j].key() != key);
                    }
                }
                first_with_key_is_one(after, key, p);
            } else {
                match bucket_position(rows, key) {
                    Some(q) => {
                        assert(is_first_with_key(rows, key, q));
                        assert(is_first_with_key(after, key, q)) by {
                            assert forall|j: int| 0 <= j < q implies (#[trigger] after[j]).key()
                                != key by {
                                assert(rows[j].key() != key);
                            }
                        }
                        first_with_key_is_one(after, key, q);
                    },
                    None => {
                        assert forall|j: int| 0 <= j < after.len() implies (#[trigger] after[j]).key()
                            != key by {
                            if rows[j].key() == key {
                                rows_with_key_have_a_first(rows, key, j);
                            }
                        }
                        absent_key_has_no_row(after, key);
                    },
                }
            }
        },
        None => {
            assert forall|j: int| 0 <= j < rows.len() implies (#[trigger] rows[j]).key()
                != row.key() by {
                if rows[j].key() == row.key() {
                    rows_with_key_have_a_first(rows, row.key(), j);
                }
            }
            let last = rows.len() as int;
            if key == row.key() {
                assert(is_first_with_key(after, key, last)) by {
                    assert forall|j: int| 0 <= j < last implies (#[trigger] after[j]).key()
                        != key by {
                        assert(rows[j].key() != key);
                    }
                }
                first_with_key_is_one(after, key, last);
            } else {
                match bucket_position(rows, key) {
                    Some(q) => {
                        assert(is_first_with_key(rows, key, q));
                        assert(is_first_with_key(after, key, q)) by {
                            assert forall|j: int| 0 <= j < q implies (#[trigger] after[j]).key()
                                != key by {
                                assert(rows[j].key() != key);
                            }
                        }
                        first_with_key_is_one(after, key, q);
                    },
                    None => {
                        assert forall|j: int| 0 <= j < after.len() implies (#[trigger] after[j]).key()
                            != key by {
                            if j < rows.len() && rows[j].key() == key {
                                rows_with_key_have_a_first(rows, key, j);
                            }
                        }
                        absent_key_has_no_row(after, key);
                    },
                }
            }
        },
    }
}

/// Where some row speaks of a bucket, one of them is the first.
pub proof fn rows_with_key_have_a_first(
    rows: Seq<AggregatePriceIntervalEntryView>,
    key: BucketKey,
    i: int,
)
    requires
        0 <= i < rows.len(),
        rows[i].key() == key,
    ensures
        bucket_position(rows, key) is Some,
    decreases i,
{
    if forall|j: int| 0 <= j < i ==> (#[trigger] rows[j]).key() != key {
        assert(is_first_with_key(rows, key, i));
    } else {
        let j = choose|j: int| 0 <= j < i && (#[trigger] rows[j]).key() == key;
        rows_with_key_have_a_first(rows, key, j);
    }
}

/// Writing a row keeps the keys of the rows apart.
pub proof fn write_keeps_keys_unique(
    rows: Seq<AggregatePriceIntervalEntryView>,
    row: AggregatePriceIntervalEntryView,
)
    requires
        keys_are_unique(rows),
    ensures
        keys_are_unique(with_bucket(rows, row)),
{
    let after = with_bucket(rows, row);
    match bucket_position(rows, row.key()) {
        Some(p) => {
            assert(is_first_with_key(rows, row.key(), p));
            assert forall|i: int, j: int| 0 <= i < j < after.len() implies (#[trigger] after[i]).key()
                != (#[trigger] after[j]).key() by {
                assert(after[i].key() == rows[i].key());
                assert(after[j].key() == rows[j].key());
            }
        },
        None => {
            assert forall|i: int, j: int| 0 <= i < j < after.len() implies (#[trigger] after[i]).key()
                != (#[trigger] after[j]).key() by {
                if j == rows.len() {
                    if rows[i].key() == row.key() {
                        rows_with_key_have_a_first(rows, row.key(), i);
                    }
                } else {
                    assert(after[i].key() == rows[i].key());
                    assert(after[j].key() == rows[j].key());
                }
            }
        },
    }
}

/// The repository.
pub struct AttestationStore {
    value_attestations: Vec<PriceValueEntry>,
    interval_attestations: Vec<PriceIntervalEntry>,
    aggregates: Vec<AggregatePriceIntervalEntry>,
}

impl View for AttestationStore {
    type V = StoredAttestations;

    closed spec fn view(&self) -> StoredAttestations {
        StoredAttestations {
            value_attestations: self.value_attestations@.map_values(|r: PriceValueEntry| r@),
            interval_attestations: self.interval_attestations@.map_values(
                |r: PriceIntervalEntry| r@,
            ),
            aggregates: self.aggregates@.map_values(|r: AggregatePriceIntervalEntry| r@),
        }
    }
}

impl AttestationStore {
    /// A store that holds nothing.
    pub fn new() -> (store: Self)
        ensures
            store@.value_attestations == Seq::<PriceValueEntryView>::empty(),
            store@.interval_attestations == Seq::<PriceIntervalEntryView>::empty(),
            store@.aggregates == Seq::<AggregatePriceIntervalEntryView>::empty(),
    {
        let store = AttestationStore {
            value_attestations: Vec::new(),
            interval_attestations: Vec::new(),
            aggregates: Vec::new(),
        };
        assert(store@.value_attestations =~= Seq::<PriceValueEntryView>::empty());
        assert(store@.interval_attestations =~= Seq::<PriceIntervalEntryView>::empty());
        assert(store@.aggregates =~= Seq::<AggregatePriceIntervalEntryView>::empty());
        store
    }

    /// Adds the row of a price value claim after those that are there.
    pub fn insert_value_attestation(&mut self, row: PriceValueEntry)
        ensures
            final(self)@.value_attestations == old(self)@.value_attestations.push(row@),
            final(self)@.interval_attestations == old(self)@.interval_attestations,
            final(self)@.aggregates == old(self)@.aggregates,
    {
        self.value_attestations.push(row);
        assert(self@.value_attestations =~= old(self)@.value_attestations.push(row@));
    }

    /// Adds the row of an interval inclusion claim after those that are
    /// there.
    pub fn insert_interval_attestation(&mut self, row: PriceIntervalEntry)
        ensures
            final(self)@.value_attestations == old(self)@.value_attestations,
            final(self)@.interval_attestations == old(self)@.interval_attestations.push(row@),
            final(self)@.aggregates == old(self)@.aggregates,
    {
        self.interval_attestations.push(row);
        assert(self@.interval_attestations =~= old(self)@.interval_attestations.push(row@));
    }

    fn position(&self, key: BucketKey) -> (found: Option<usize>)
        ensures
            found matches Some(i) ==> bucket_position(self@.aggregates, key) == Some(i as int) && i
                < self.aggregates.len(),
            found is None ==> bucket_position(self@.aggregates, key) is None,
    {
        let mut i: usize = 0;
        while i < self.aggregates.len()
            invariant
                i <= self.aggregates.len(),
                forall|j: int| 0 <= j < i ==> (#[trigger] self@.aggregates[j]).key() != key,
            decreases self.aggregates.len() - i,
        {
            if self.aggregates[i].key() == key {
                proof {
                    assert(self@.aggregates[i as int] == self.aggregates[i as int]@);
                    first_with_key_is_one(self@.aggregates, key, i as int);
                }
                return Some(i);
            }
            assert(self@.aggregates[i as int] == self.aggregates[i as int]@);
            i += 1;
        }
        proof {
            absent_key_has_no_row(self@.aggregates, key);
        }
        None
    }

    /// The row of the bucket `key`, if it has one.
    pub fn get_aggregate_bucket(&self, key: BucketKey) -> (found: Option<
        &AggregatePriceIntervalEntry,
    >)
        ensures
            found is Some <==> bucket_of(self@.aggregates, key) is Some,
            found matches Some(row) ==> Some(row@) == bucket_of(self@.aggregates, key),
    {
        match self.position(key) {
            Some(i) => {
                assert(self@.aggregates[i as int] == self.aggregates[i as int]@);
                Some(&self.aggregates[i])
            },
            None => None,
        }
    }

    /// Writes the row of a bucket: in place of the row that the bucket has,
    /// or as a new row where it has none.
    pub fn upsert_aggregate_bucket(&mut self, row: AggregatePriceIntervalEntry)
        ensures
            final(self)@.value_attestations == old(self)@.value_attestations,
            final(self)@.interval_attestations == old(self)@.interval_attestations,
            final(self)@.aggregates == with_bucket(old(self)@.aggregates, row@),
            keys_are_unique(old(self)@.aggregates) ==> keys_are_unique(final(self)@.aggregates),
    {
        proof {
            if keys_are_unique(self@.aggregates) {
                write_keeps_keys_unique(self@.aggregates, row@);
            }
        }
        let ghost written = row@;
        match self.position(row.key()) {
            Some(i) => {
                self.aggregates.set(i, row);
                assert(self@.aggregates =~= old(self)@.aggregates.update(i as int, written));
            },
            None => {
                self.aggregates.push(row);
                assert(self@.aggregates =~= old(self)@.aggregates.push(written));
            },
        }
    }
}

/// The rows of the accepted price value claims, in the order in which they
/// came.
pub fn get_price_value_attestations(store: &AttestationStore) -> (rows: Vec<PriceValueEntry>)
    ensures
        rows@.map_values(|r: PriceValueEntry| r@) == store@.value_attestations,
{
    let mut rows: Vec<PriceValueEntry> = Vec::new();
    let mut i: usize = 0;
    while i < store.value_attestations.len()
        invariant
            i <= store.value_attestations.len(),
            rows@.len() == i,
            forall|j: int| 0 <= j < i ==> rows@[j] == store.value_attestations@[j],
        decreases store.value_attestations.len() - i,
    {
        rows.push(store.value_attestations[i].clone());
        i += 1;
    }
    assert(rows@.map_values(|r: PriceValueEntry| r@) =~= store@.value_attestations);
    rows
}

/// The rows of the accepted interval inclusion claims, in the order in
/// which they came.
pub fn get_price_interval_attestations(store: &AttestationStore) -> (rows: Vec<
    PriceIntervalEntry,
>)
    ensures
        rows@.map_values(|r: PriceIntervalEntry| r@) == store@.interval_attestations,
{
    let mut rows: Vec<PriceIntervalEntry> = Vec::new();
    let mut i: usize = 0;
    while i < store.interval_attestations.len()
        invariant
            i <= store.interval_attestations.len(),
            rows@.len() == i,
            forall|j: int| 0 <= j < i ==> rows@[j] == store.interval_attestations@[j],
        decreases store.interval_attestations.len() - i,
    {
        rows.push(store.interval_attestations[i].clone());
        i += 1;
    }
    assert(rows@.map_values(|r: PriceIntervalEntry| r@) =~= store@.interval_attestations);
    rows
}

/// The rows of the buckets, in the order in which the buckets were made.
pub fn get_aggregate_price_interval_attestations(store: &AttestationStore) -> (rows: Vec<
    AggregatePriceIntervalEntry,
>)
    ensures
        rows@.map_values(|r: AggregatePriceIntervalEntry| r@) == store@.aggregates,
{
    let mut rows: Vec<AggregatePriceIntervalEntry> = Vec::new();
    let mut i: usize = 0;
    while i < store.aggregates.len()
        invariant
            i <= store.aggregates.len(),
            rows@.len() == i,
            forall|j: int| 0 <= j < i ==> rows@[j] == store.aggregates@[j],
        decreases store.aggregates.len() - i,
    {
        rows.push(store.aggregates[i].clone());
        i += 1;
    }
    assert(rows@.map_values(|r: AggregatePriceIntervalEntry| r@) =~= store@.aggregates);
    rows
}

} // verus!
