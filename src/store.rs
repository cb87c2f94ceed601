//! The counter store: identifiers mapped to counts, created at zero and
//! raised by one atomic step at a time.
use std::collections::HashMap;
use vstd::prelude::*;

verus! {

broadcast use vstd::std_specs::hash::group_hash_axioms;

/// Why the store could not carry out an operation.
pub enum StorageError {
    /// The identifier drawn for a new counter names a counter already.
    DuplicateId,
    /// The count has reached the largest value the store can hold.
    CountOutOfRange,
    /// The persistence layer failed; the text describes the failure.
    Backend(String),
}

impl StorageError {
    /// The description shown to a client for this failure.
    pub fn message(&self) -> (r: String)
        ensures
            r@ == storage_error_text(*self),
    {
        match self {
            StorageError::DuplicateId => String::from_str("duplicate key value violates unique constraint"),
            StorageError::CountOutOfRange => String::from_str("bigint out of range"),
            StorageError::Backend(s) => s.clone(),
        }
    }
}

/// The text that describes a storage failure.
pub open spec fn storage_error_text(e: StorageError) -> Seq<char> {
    match e {
        StorageError::DuplicateId => "duplicate key value violates unique constraint"@,
        StorageError::CountOutOfRange => "bigint out of range"@,
        StorageError::Backend(s) => s@,
    }
}

/// The store after creating a counter under `id`.
pub open spec fn create_state(m: Map<u128, i64>, id: u128) -> Map<u128, i64> {
    if m.contains_key(id) { m } else { m.insert(id, 0) }
}

/// What creating a counter under `id` returns.
pub open spec fn create_result(m: Map<u128, i64>, id: u128) -> Result<u128, StorageError> {
    if m.contains_key(id) { Err(StorageError::DuplicateId) } else { Ok(id) }
}

/// The store after one increment of the counter `id`.
pub open spec fn increment_state(m: Map<u128, i64>, id: u128) -> Map<u128, i64> {
    if m.contains_key(id) && m[id] < i64::MAX { m.insert(id, (m[id] + 1) as i64) } else { m }
}

/// What one increment of the counter `id` returns: the new count, `None`
/// for an unknown identifier, or an error once the count cannot grow.
pub open spec fn increment_result(m: Map<u128, i64>, id: u128) -> Result<Option<i64>, StorageError> {
    if !m.contains_key(id) {
        Ok(None)
    } else if m[id] == i64::MAX {
        Err(StorageError::CountOutOfRange)
    } else {
        Ok(Some((m[id] + 1) as i64))
    }
}

/// Every count in the store is non-negative.
pub open spec fn counts_valid(m: Map<u128, i64>) -> bool {
    forall|k: u128| m.contains_key(k) ==> m[k] >= 0
}

/// An in-memory model of the counter table: counters held in memory, keyed
/// by their 128-bit identifiers, with the same create and increment contract
/// as the persistent store (one row per identifier, created at zero, raised
/// by one atomic step). The service itself keeps its counters in a
/// database; this store is for embedding and for reasoning about that
/// contract.
pub struct CounterStore {
    counts: HashMap<u128, i64>,
}

impl View for CounterStore {
    type V = Map<u128, i64>;

    closed spec fn view(&self) -> Map<u128, i64> {
        self.counts@
    }
}

impl CounterStore {
    /// The store's invariant: every count is non-negative.
    pub open spec fn wf(&self) -> bool {
        counts_valid(self@)
    }

    /// An empty store.
    pub fn new() -> (r: CounterStore)
        ensures
            r.wf(),
            r@ == Map::<u128, i64>::empty(),
    {
        CounterStore { counts: HashMap::new() }
    }

    /// Creates a counter with count zero under `id`, unless `id` is taken.
    pub fn insert_counter(&mut self, id: u128) -> (r: Result<u128, StorageError>)
        requires
            old(self).wf(),
        ensures
            final(self).wf(),
            final(self)@ == create_state(old(self)@, id),
            r == create_result(old(self)@, id),
    {
        if self.counts.contains_key(&id) {
            Err(StorageError::DuplicateId)
        } else {
            self.counts.insert(id, 0);
            Ok(id)
        }
    }

    /// Creates a counter with count zero under a freshly drawn random
    /// identifier and returns that identifier.
    pub fn create_counter(&mut self) -> (r: Result<u128, StorageError>)
        requires
            old(self).wf(),
        ensures
            final(self).wf(),
            match r {
                Ok(id) => !old(self)@.contains_key(id) && final(self)@ == old(self)@.insert(id, 0),
                Err(e) => e == StorageError::DuplicateId && final(self)@ == old(self)@,
            },
            old(self)@ == Map::<u128, i64>::empty() ==> r is Ok,
    {
        let id = crate::ids::random_id();
        self.insert_counter(id)
    }

    /// Raises the counter `id` by one and returns its new value in the same
    /// step; `None` when no counter has that identifier.
    pub fn increment_and_get(&mut self, id: u128) -> (r: Result<Option<i64>, StorageError>)
        requires
            old(self).wf(),
        ensures
            final(self).wf(),
            final(self)@ == increment_state(old(self)@, id),
            r == increment_result(old(self)@, id),
    {
        match self.counts.get(&id) {
            None => Ok(None),
            Some(c) => {
                let c: i64 = *c;
                if c == i64::MAX {
                    Err(StorageError::CountOutOfRange)
                } else {
                    let next: i64 = c + 1;
                    self.counts.insert(id, next);
                    Ok(Some(next))
                }
            },
        }
    }

    /// The current count of `id`, if such a counter exists.
    pub fn count(&self, id: u128) -> (r: Option<i64>)
        ensures
            r == (if self@.contains_key(id) { Some(self@[id]) } else { None::<i64> }),
    {
        match self.counts.get(&id) {
            None => None,
            Some(c) => Some(*c),
        }
    }
}

/// The store after trying to create a counter under each candidate
/// identifier in turn.
pub open spec fn create_all(m: Map<u128, i64>, candidates: Seq<u128>) -> Map<u128, i64>
    decreases candidates.len(),
{
    if candidates.len() == 0 {
        m
    } else {
        create_state(create_all(m, candidates.drop_last()), candidates.last())
    }
}

/// The identifiers returned by the successful creations among those tries.
pub open spec fn created_ids(m: Map<u128, i64>, candidates: Seq<u128>) -> Seq<u128>
    decreases candidates.len(),
{
    if candidates.len() == 0 {
        Seq::empty()
    } else {
        let before = create_all(m, candidates.drop_last());
        let earlier = created_ids(m, candidates.drop_last());
        match create_result(before, candidates.last()) {
            Ok(id) => earlier.push(id),
            Err(_) => earlier,
        }
    }
}

/// Creation never hands out the same identifier twice: over any run of
/// creations, the identifiers returned are pairwise distinct, none named a
/// counter before the run, and each names a counter with count zero until
/// it is incremented.
pub proof fn lemma_created_ids_unique(m: Map<u128, i64>, candidates: Seq<u128>)
    ensures
        created_ids(m, candidates).no_duplicates(),
        forall|i: int| 0 <= i < created_ids(m, candidates).len() ==> {
            &&& !m.contains_key(#[trigger] created_ids(m, candidates)[i])
            &&& create_all(m, candidates).contains_key(created_ids(m, candidates)[i])
            &&& create_all(m, candidates)[created_ids(m, candidates)[i]] == 0
        },
        forall|k: u128| m.contains_key(k) ==> #[trigger] create_all(m, candidates).contains_key(k)
            && create_all(m, candidates)[k] == m[k],
    decreases candidates.len(),
{
    if candidates.len() > 0 {
        let prev = candidates.drop_last();
        lemma_created_ids_unique(m, prev);
        let before = create_all(m, prev);
        let earlier = created_ids(m, prev);
        let id = candidates.last();
        if !before.contains_key(id) {
            let now = created_ids(m, candidates);
            assert(now == earlier.push(id));
            assert forall|i: int, j: int| 0 <= i < now.len() && 0 <= j < now.len() && i != j
                implies now[i] != now[j] by {
                if i < earlier.len() && j < earlier.len() {
                } else if i < earlier.len() {
                    assert(before.contains_key(earlier[i]));
                } else {
                    assert(before.contains_key(earlier[j]));
                }
            }
            assert forall|i: int| 0 <= i < now.len() implies {
                &&& !m.contains_key(#[trigger] now[i])
                &&& create_all(m, candidates).contains_key(now[i])
                &&& create_all(m, candidates)[now[i]] == 0
            } by {
                if i < earlier.len() {
                    assert(now[i] == earlier[i]);
                } else {
                    assert(now[i] == id);
                }
            }
        }
    }
}

/// A counter that was just created reads one after its first increment.
pub proof fn lemma_first_increment_is_one(m: Map<u128, i64>, id: u128)
    requires
        create_result(m, id) is Ok,
    ensures
        increment_result(create_state(m, id), id) == Ok::<Option<i64>, StorageError>(Some(1i64)),
{
}

/// The store after `n` increments of the counter `id`.
pub open spec fn increment_n(m: Map<u128, i64>, id: u128, n: nat) -> Map<u128, i64>
    decreases n,
{
    if n == 0 { m } else { increment_state(increment_n(m, id, (n - 1) as nat), id) }
}

/// The results of `n` increments of the counter `id`, in the order made.
pub open spec fn increment_results(m: Map<u128, i64>, id: u128, n: nat) -> Seq<Result<Option<i64>, StorageError>>
    decreases n,
{
    if n == 0 {
        Seq::empty()
    } else {
        let before = increment_n(m, id, (n - 1) as nat);
        increment_results(m, id, (n - 1) as nat).push(increment_result(before, id))
    }
}

/// `n` increments of an existing counter return its old count plus 1, 2, ...,
/// `n` in that order, leave it at its old count plus `n`, and leave every
/// other counter as it was.
pub proof fn lemma_increments_count_up(m: Map<u128, i64>, id: u128, n: nat)
    requires
        m.contains_key(id),
        m[id] + n <= i64::MAX,
    ensures
        increment_results(m, id, n).len() == n,
        forall|i: int| 0 <= i < n ==> #[trigger] increment_results(m, id, n)[i]
            == Ok::<Option<i64>, StorageError>(Some((m[id] + i + 1) as i64)),
        increment_n(m, id, n).contains_key(id),
        increment_n(m, id, n)[id] == m[id] + n,
        increment_n(m, id, n).dom() == m.dom(),
        forall|k: u128| k != id && m.contains_key(k) ==> #[trigger] increment_n(m, id, n)[k] == m[k],
    decreases n,
{
    if n > 0 {
        lemma_increments_count_up(m, id, (n - 1) as nat);
        let before = increment_n(m, id, (n - 1) as nat);
        assert(increment_n(m, id, n) == increment_state(before, id));
        assert(increment_n(m, id, n).dom() =~= m.dom());
        let r = increment_results(m, id, n);
        assert forall|i: int| 0 <= i < n implies #[trigger] r[i]
            == Ok::<Option<i64>, StorageError>(Some((m[id] + i + 1) as i64)) by {
            if i < n - 1 {
                assert(r[i] == increment_results(m, id, (n - 1) as nat)[i]);
            }
        }
    }
}

/// Whether one of the results is the count `v`.
pub open spec fn returns_count(rs: Seq<Result<Option<i64>, StorageError>>, v: i64) -> bool {
    exists|i: int| 0 <= i < rs.len() && rs[i] == Ok::<Option<i64>, StorageError>(Some(v))
}

/// `n` increments of a fresh counter, however callers interleave them, are
/// `n` atomic steps: they return each of 1, ..., `n` exactly once, and the
/// counter ends at `n`.
pub proof fn lemma_increments_from_zero(m: Map<u128, i64>, id: u128, n: nat)
    requires
        m.contains_key(id),
        m[id] == 0,
        n <= i64::MAX,
    ensures
        increment_n(m, id, n)[id] == n,
        forall|v: i64| 1 <= v <= n <==> #[trigger] returns_count(increment_results(m, id, n), v),
        forall|i: int, j: int| 0 <= i < n && 0 <= j < n && i != j
            ==> increment_results(m, id, n)[i] != increment_results(m, id, n)[j],
{
    lemma_increments_count_up(m, id, n);
    let r = increment_results(m, id, n);
    assert forall|v: i64| 1 <= v <= n <==> #[trigger] returns_count(r, v) by {
        if 1 <= v <= n {
            assert(r[v - 1] == Ok::<Option<i64>, StorageError>(Some(v)));
        }
        if returns_count(r, v) {
            let i = choose|i: int| 0 <= i < r.len() && r[i] == Ok::<Option<i64>, StorageError>(Some(v));
            assert(r[i] == Ok::<Option<i64>, StorageError>(Some((i + 1) as i64)));
        }
    }
    assert forall|i: int, j: int| 0 <= i < n && 0 <= j < n && i != j implies r[i] != r[j] by {
        assert(r[i] == Ok::<Option<i64>, StorageError>(Some((i + 1) as i64)));
        assert(r[j] == Ok::<Option<i64>, StorageError>(Some((j + 1) as i64)));
    }
}

/// Incrementing an identifier that names no counter reports it as unknown,
/// never as a storage failure, and changes nothing.
pub proof fn lemma_unknown_id_not_found(m: Map<u128, i64>, id: u128)
    requires
        !m.contains_key(id),
    ensures
        increment_result(m, id) == Ok::<Option<i64>, StorageError>(None),
        increment_state(m, id) == m,
{
}

} // verus!
