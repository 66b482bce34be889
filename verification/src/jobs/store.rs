//! The job table and its atomic claim.
//!
//! The store is the only place where a record changes state, and every
//! operation on it is one indivisible step: `claim_one` selects the earliest
//! pending record and marks it running before it returns, so two claimants,
//! however their calls interleave, can never be handed the same record.

use vstd::prelude::*;
use crate::clock;
use crate::jobs::record::{JobRecord, JobRecordView, NewJob, Timestamp, outcome_view};

verus! {

/// Why the store refused an insert.
#[derive(Debug, Clone, Copy, PartialEq, Eq, Structural)]
pub enum StoreError {
    /// The store has handed out every identifier it can.
    Exhausted,
}

/// No two rows share an identifier.
pub open spec fn unique_ids(rows: Seq<JobRecordView>) -> bool {
    forall|i: int, j: int|
        0 <= i < rows.len() && 0 <= j < rows.len() && i != j ==> (#[trigger] rows[i]).id != (
        #[trigger] rows[j]).id
}

/// Claim order between two rows: the earlier `scheduled_at` goes first, and of
/// two rows scheduled for the same instant the one inserted first.
pub open spec fn precedes(rows: Seq<JobRecordView>, i: int, j: int) -> bool {
    rows[i].scheduled_at < rows[j].scheduled_at || (rows[i].scheduled_at == rows[j].scheduled_at
        && i <= j)
}

/// Row `i` is pending at `now` and precedes every pending row among the first
/// `n` rows.
pub open spec fn is_target_among(rows: Seq<JobRecordView>, now: Timestamp, n: int, i: int) -> bool {
    &&& 0 <= i < n <= rows.len()
    &&& rows[i].is_pending(now)
    &&& forall|j: int| 0 <= j < n && (#[trigger] rows[j]).is_pending(now) ==> precedes(rows, i, j)
}

/// Row `i` is the one a claim at `now` takes.
pub open spec fn is_claim_target(rows: Seq<JobRecordView>, now: Timestamp, i: int) -> bool {
    is_target_among(rows, now, rows.len() as int, i)
}

/// Some row is pending at `now`.
pub open spec fn has_pending(rows: Seq<JobRecordView>, now: Timestamp) -> bool {
    exists|i: int| 0 <= i < rows.len() && (#[trigger] rows[i]).is_pending(now)
}

/// The index of the row a claim at `now` takes, if any row is pending.
pub open spec fn claim_target(rows: Seq<JobRecordView>, now: Timestamp) -> Option<int> {
    if exists|i: int| is_claim_target(rows, now, i) {
        Some(choose|i: int| is_claim_target(rows, now, i))
    } else {
        None
    }
}

/// The rows after a claim at `now`.
pub open spec fn after_claim(rows: Seq<JobRecordView>, now: Timestamp) -> Seq<JobRecordView> {
    match claim_target(rows, now) {
        Some(i) => rows.update(i, rows[i].claimed(now)),
        None => rows,
    }
}

/// What a claim at `now` returns.
pub open spec fn claim_result(rows: Seq<JobRecordView>, now: Timestamp) -> Option<JobRecordView> {
    match claim_target(rows, now) {
        Some(i) => Some(rows[i].claimed(now)),
        None => None,
    }
}

/// The rows after `complete(id, outcome)` at `now`.
pub open spec fn after_complete(
    rows: Seq<JobRecordView>,
    id: u128,
    outcome: Result<(), Seq<char>>,
    now: Timestamp,
) -> Seq<JobRecordView> {
    Seq::new(
        rows.len(),
        |i: int|
            if rows[i].id == id {
                rows[i].completed(outcome, now)
            } else {
                rows[i]
            },
    )
}

/// The rows after a sweep at `now`: every stalled row is waiting again, every
/// other row is as it was.
pub open spec fn after_reclaim(rows: Seq<JobRecordView>, now: Timestamp) -> Seq<JobRecordView> {
    Seq::new(
        rows.len(),
        |i: int|
            if rows[i].is_stalled(now) {
                rows[i].released()
            } else {
                rows[i]
            },
    )
}

/// How many of the first `n` rows are stalled at `now`.
pub open spec fn stalled_among(rows: Seq<JobRecordView>, now: Timestamp, n: int) -> nat
    decreases n,
{
    if n <= 0 {
        0
    } else if rows[n - 1].is_stalled(now) {
        stalled_among(rows, now, n - 1) + 1
    } else {
        stalled_among(rows, now, n - 1)
    }
}

/// At most one row can be the claim target.
pub proof fn lemma_claim_target_unique(rows: Seq<JobRecordView>, now: Timestamp, i: int, j: int)
    requires
        is_claim_target(rows, now, i),
        is_claim_target(rows, now, j),
    ensures
        i == j,
{
    assert(precedes(rows, i, j));
    assert(precedes(rows, j, i));
}

/// Among the first `n` rows there is a target exactly when one of them is
/// pending.
pub proof fn lemma_target_among_exists(rows: Seq<JobRecordView>, now: Timestamp, n: int)
    requires
        0 <= n <= rows.len(),
    ensures
        (exists|i: int| is_target_among(rows, now, n, i)) <==> (exists|j: int|
            0 <= j < n && (#[trigger] rows[j]).is_pending(now)),
    decreases n,
{
    if n > 0 {
        let last = n - 1;
        lemma_target_among_exists(rows, now, last);
        if exists|i: int| is_target_among(rows, now, last, i) {
            let b = choose|i: int| is_target_among(rows, now, last, i);
            if rows[last].is_pending(now) && rows[last].scheduled_at < rows[b].scheduled_at {
                assert(is_target_among(rows, now, n, last));
            } else {
                assert(is_target_among(rows, now, n, b));
            }
        } else if rows[last].is_pending(now) {
            assert(is_target_among(rows, now, n, last));
        } else {
            assert forall|j: int| 0 <= j < n implies !(#[trigger] rows[j]).is_pending(now) by {
                if j < last {
                    assert(!(exists|k: int| 0 <= k < last && (#[trigger] rows[k]).is_pending(now)));
                }
            }
        }
    }
}

/// `claim_target` is the claim target when a row is pending, and nothing
/// otherwise.
pub proof fn lemma_claim_target(rows: Seq<JobRecordView>, now: Timestamp)
    ensures
        has_pending(rows, now) <==> claim_target(rows, now) is Some,
        claim_target(rows, now) matches Some(i) ==> is_claim_target(rows, now, i),
        forall|i: int| is_claim_target(rows, now, i) ==> claim_target(rows, now) == Some(i),
{
    let n = rows.len() as int;
    lemma_target_among_exists(rows, now, n);
    if has_pending(rows, now) {
        let j = choose|j: int| 0 <= j < rows.len() && (#[trigger] rows[j]).is_pending(now);
        assert(0 <= j < n && rows[j].is_pending(now));
        assert(exists|i: int| is_target_among(rows, now, n, i));
        let t = choose|i: int| is_target_among(rows, now, n, i);
        assert(is_claim_target(rows, now, t));
    }
    if claim_target(rows, now) is Some {
        let t = claim_target(rows, now).unwrap();
        assert(is_claim_target(rows, now, t));
        assert(rows[t].is_pending(now));
    }
    assert forall|i: int| is_claim_target(rows, now, i) implies claim_target(rows, now) == Some(
        i,
    ) by {
        lemma_claim_target_unique(rows, now, i, claim_target(rows, now).unwrap());
    }
}

/// The rows that a vector of records stands for.
pub open spec fn rows_of(records: Seq<JobRecord>) -> Seq<JobRecordView> {
    Seq::new(records.len(), |i: int| records[i]@)
}

/// The job table: rows in insertion order.
pub struct JobStore {
    records: Vec<JobRecord>,
    next_id: u128,
}

impl View for JobStore {
    type V = Seq<JobRecordView>;

    closed spec fn view(&self) -> Seq<JobRecordView> {
        Seq::new(self.records.len() as nat, |i: int| self.records[i]@)
    }
}

impl JobStore {
    /// The identifier the next insert assigns.
    pub closed spec fn next_id(&self) -> u128 {
        self.next_id
    }

    /// Validity of a store: identifiers are unique and below `next_id`.
    pub open spec fn wf(&self) -> bool {
        &&& unique_ids(self@)
        &&& forall|i: int| 0 <= i < self@.len() ==> (#[trigger] self@[i]).id < self.next_id()
    }

    /// An empty store.
    pub fn new() -> (store: JobStore)
        ensures
            store.wf(),
            store@ == Seq::<JobRecordView>::empty(),
            store.next_id() == 1,
    {
        let store = JobStore { records: Vec::new(), next_id: 1 };
        assert(store@ =~= Seq::<JobRecordView>::empty());
        store
    }

    /// A store that holds the given records, in their order. Refused when two
    /// records share an identifier or when one carries the largest
    /// identifier there is, after which the store could assign no other.
    pub fn from_records(records: Vec<JobRecord>) -> (loaded: Option<JobStore>)
        ensures
            loaded is Some <==> unique_ids(rows_of(records@)) && forall|i: int|
                0 <= i < records.len() ==> (#[trigger] records[i]).id < u128::MAX,
            loaded matches Some(store) ==> store.wf() && store@ == rows_of(records@),
    {
        let ghost rows = rows_of(records@);
        let mut next_id: u128 = 1;
        let mut k: usize = 0;
        while k < records.len()
            invariant
                k <= records.len(),
                rows == rows_of(records@),
                forall|i: int, j: int| 0 <= i < j < k ==> (#[trigger] rows[i]).id != (#[trigger] rows[j]).id,
                forall|i: int| 0 <= i < k ==> (#[trigger] rows[i]).id < next_id,
            decreases records.len() - k,
        {
            let id = records[k].id;
            if id == u128::MAX {
                assert(!(records[k as int].id < u128::MAX));
                return None;
            }
            let mut j: usize = 0;
            while j < k
                invariant
                    j <= k < records.len(),
                    rows == rows_of(records@),
                    id == rows[k as int].id,
                    forall|i: int| 0 <= i < j ==> (#[trigger] rows[i]).id != id,
                decreases k - j,
            {
                if records[j].id == id {
                    assert(rows[j as int].id == rows[k as int].id);
                    return None;
                }
                j += 1;
            }
            if id >= next_id {
                next_id = id + 1;
            }
            k += 1;
        }
        proof {
            assert forall|i: int, j: int|
                0 <= i < rows.len() && 0 <= j < rows.len() && i != j implies (#[trigger] rows[i]).id
                != (#[trigger] rows[j]).id by {
                if i < j {
                    assert(rows[i].id != rows[j].id);
                } else {
                    assert(rows[j].id != rows[i].id);
                }
            }
            assert forall|i: int| 0 <= i < records.len() implies (#[trigger] records[i]).id
                < u128::MAX by {
                assert(rows[i].id < next_id);
            }
        }
        let store = JobStore { records, next_id };
        assert(store@ =~= rows);
        Some(store)
    }

    /// Number of rows.
    pub fn len(&self) -> (n: usize)
        ensures
            n == self@.len(),
    {
        self.records.len()
    }

    /// Appends a new record, neither claimed nor finished, and returns its
    /// identifier.
    pub fn insert(&mut self, job: NewJob, now: Timestamp) -> (r: Result<u128, StoreError>)
        requires
            old(self).wf(),
        ensures
            final(self).wf(),
            match r {
                Ok(id) => {
                    &&& id == old(self).next_id()
                    &&& final(self).next_id() == id + 1
                    &&& final(self)@ == old(self)@.push(job@.into_record(id, now))
                },
                Err(e) => {
                    &&& e == StoreError::Exhausted
                    &&& old(self).next_id() == u128::MAX
                    &&& final(self)@ == old(self)@
                    &&& final(self).next_id() == old(self).next_id()
                },
            },
    {
        if self.next_id == u128::MAX {
            return Err(StoreError::Exhausted);
        }
        let id = self.next_id;
        let record = JobRecord {
            id,
            task_name: job.task_name,
            task_hash: job.task_hash,
            payload: job.payload,
            timeout_msecs: job.timeout_msecs,
            max_retries: job.max_retries,
            retries: 0,
            created_at: now,
            scheduled_at: job.scheduled_at,
            running_at: None,
            done_at: None,
            error: None,
        };
        self.next_id = id + 1;
        self.records.push(record);
        assert(self@ =~= old(self)@.push(job@.into_record(id, now)));
        Ok(id)
    }

    /// Claims the earliest pending record: marks it running at `now` and
    /// returns it. Returns `None`, and changes nothing, when no record is
    /// pending at `now`.
    pub fn claim_one(&mut self, now: Timestamp) -> (claimed: Option<JobRecord>)
        requires
            old(self).wf(),
        ensures
            final(self).wf(),
            final(self).next_id() == old(self).next_id(),
            final(self)@ == after_claim(old(self)@, now),
            claimed is Some <==> has_pending(old(self)@, now),
            match claimed {
                Some(record) => Some(record@) == claim_result(old(self)@, now),
                None => claim_result(old(self)@, now) is None,
            },
    {
        let mut best: Option<usize> = None;
        let mut k: usize = 0;
        while k < self.records.len()
            invariant
                k <= self.records.len(),
                self@ == old(self)@,
                match best {
                    Some(b) => is_target_among(self@, now, k as int, b as int),
                    None => forall|j: int| 0 <= j < k ==> !(#[trigger] self@[j]).is_pending(now),
                },
            decreases self.records.len() - k,
        {
            if self.records[k].is_pending(now) {
                match best {
                    None => {
                        best = Some(k);
                    },
                    Some(b) => {
                        if self.records[k].scheduled_at < self.records[b].scheduled_at {
                            best = Some(k);
                        }
                    },
                }
            }
            k += 1;
        }
        proof {
            lemma_claim_target(old(self)@, now);
        }
        match best {
            None => None,
            Some(b) => {
                assert(is_claim_target(old(self)@, now, b as int));
                self.records[b].mark_running(now);
                let record = self.records[b].clone();
                assert(self@ =~= old(self)@.update(b as int, old(self)@[b as int].claimed(now)));
                Some(record)
            },
        }
    }

    /// Marks the record `id` terminal at `now`: success sets `done_at`,
    /// failure sets `done_at` and the error message. Does nothing when the
    /// record is already terminal or when no record has that identifier.
    pub fn complete_at(&mut self, id: u128, outcome: Result<(), String>, now: Timestamp)
        requires
            old(self).wf(),
        ensures
            final(self).wf(),
            final(self).next_id() == old(self).next_id(),
            final(self)@ == after_complete(old(self)@, id, outcome_view(outcome), now),
    {
        let mut k: usize = 0;
        while k < self.records.len()
            invariant
                k <= self.records.len(),
                self@ == old(self)@,
                self.next_id() == old(self).next_id(),
                self.wf(),
                forall|j: int| 0 <= j < k ==> (#[trigger] self@[j]).id != id,
            decreases self.records.len() - k,
        {
            if self.records[k].id == id {
                self.records[k].mark_done(outcome, now);
                proof {
                    let rows = old(self)@;
                    let done = after_complete(rows, id, outcome_view(outcome), now);
                    assert forall|i: int| 0 <= i < rows.len() implies self@[i] == done[i] by {
                        if i != k {
                            assert(rows[i].id != rows[k as int].id);
                        }
                    }
                }
                assert(self@ =~= after_complete(old(self)@, id, outcome_view(outcome), now));
                return ;
            }
            k += 1;
        }
        assert(self@ =~= after_complete(old(self)@, id, outcome_view(outcome), now));
    }

    /// Gives stalled records back to the queue: every record that has been
    /// running for longer than its timeout allows at `now` is made waiting
    /// again, so that a later claim hands it out once more. Returns how many
    /// records that were. The retry counter is not touched.
    ///
    /// Nothing calls this on its own account. After a sweep a record can be
    /// claimed a second time while its first routine still runs; whoever
    /// sweeps accepts that.
    pub fn reclaim_stalled(&mut self, now: Timestamp) -> (reclaimed: usize)
        requires
            old(self).wf(),
        ensures
            final(self).wf(),
            final(self).next_id() == old(self).next_id(),
            final(self)@ == after_reclaim(old(self)@, now),
            reclaimed == stalled_among(old(self)@, now, old(self)@.len() as int),
    {
        let mut reclaimed: usize = 0;
        let mut k: usize = 0;
        while k < self.records.len()
            invariant
                k <= self.records.len(),
                self@.len() == old(self)@.len(),
                self.next_id() == old(self).next_id(),
                reclaimed == stalled_among(old(self)@, now, k as int),
                reclaimed <= k,
                forall|i: int| 0 <= i < k ==> (#[trigger] self@[i]) == after_reclaim(old(self)@, now)[i],
                forall|i: int| k <= i < self@.len() ==> (#[trigger] self@[i]) == old(self)@[i],
            decreases self.records.len() - k,
        {
            let ghost before = self@;
            assert(before[k as int] == old(self)@[k as int]);
            if self.records[k].is_stalled(now) {
                self.records[k].running_at = None;
                reclaimed += 1;
            }
            proof {
                let next = k + 1;
                assert(stalled_among(old(self)@, now, next) == stalled_among(old(self)@, now, next - 1)
                    + if old(self)@[next - 1].is_stalled(now) {
                    1nat
                } else {
                    0nat
                });
                assert(self@[k as int] == after_reclaim(old(self)@, now)[k as int]);
                assert forall|i: int| 0 <= i < next implies (#[trigger] self@[i]) == after_reclaim(
                    old(self)@,
                    now,
                )[i] by {
                    if i < k {
                        assert(self@[i] == before[i]);
                    }
                }
                assert forall|i: int| next <= i < self@.len() implies (#[trigger] self@[i]) == old(
                    self,
                )@[i] by {
                    assert(self@[i] == before[i]);
                }
            }
            k += 1;
        }
        proof {
            assert(self@ =~= after_reclaim(old(self)@, now));
            assert forall|i: int, j: int|
                0 <= i < self@.len() && 0 <= j < self@.len() && i != j implies (#[trigger] self@[i]).id
                != (#[trigger] self@[j]).id by {
                assert(old(self)@[i].id != old(self)@[j].id);
            }
            assert forall|i: int| 0 <= i < self@.len() implies (#[trigger] self@[i]).id
                < self.next_id() by {
                assert(old(self)@[i].id < old(self).next_id());
            }
        }
        reclaimed
    }

    /// Marks the record `id` terminal now: `complete_at` at the time the
    /// clock shows.
    pub fn complete(&mut self, id: u128, outcome: Result<(), String>)
        requires
            old(self).wf(),
        ensures
            final(self).wf(),
            final(self).next_id() == old(self).next_id(),
            exists|now: Timestamp| #[trigger]
                after_complete(old(self)@, id, outcome_view(outcome), now) == final(self)@,
    {
        let now = clock::now();
        self.complete_at(id, outcome, now);
    }

    /// The record with identifier `id`, if the store holds one.
    pub fn get(&self, id: u128) -> (found: Option<JobRecord>)
        ensures
            match found {
                Some(record) => record@.id == id && self@.contains(record@),
                None => forall|i: int| 0 <= i < self@.len() ==> (#[trigger] self@[i]).id != id,
            },
    {
        let mut k: usize = 0;
        while k < self.records.len()
            invariant
                k <= self.records.len(),
                forall|j: int| 0 <= j < k ==> (#[trigger] self@[j]).id != id,
            decreases self.records.len() - k,
        {
            if self.records[k].id == id {
                let record = self.records[k].clone();
                assert(self@[k as int] == record@);
                return Some(record);
            }
            k += 1;
        }
        None
    }
}

} // verus!
