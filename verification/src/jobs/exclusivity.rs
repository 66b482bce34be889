//! What holds of every series of claims against one store.
//!
//! Workers do not coordinate with each other: each one calls `claim_one` when
//! its poll timer fires. Because a claim is one indivisible step of the
//! store, any concurrent execution of K workers is some series of claims
//! served one after the other. The theorems below are stated for an arbitrary
//! such series, so they hold for every number of workers and every
//! interleaving.

use vstd::prelude::*;
use crate::jobs::record::{JobRecordView, Timestamp};
use crate::jobs::store::{
    after_claim,
    after_complete,
    claim_result,
    claim_target,
    has_pending,
    lemma_claim_target,
    unique_ids,
};

verus! {

/// The rows after the claims at `times[0]`, `times[1]`, ... were served one
/// after the other.
pub open spec fn after_claims(rows: Seq<JobRecordView>, times: Seq<Timestamp>) -> Seq<
    JobRecordView,
>
    decreases times.len(),
{
    if times.len() == 0 {
        rows
    } else {
        after_claim(after_claims(rows, times.drop_last()), times.last())
    }
}

/// What claim number `k` of the series returned.
pub open spec fn nth_claim(rows: Seq<JobRecordView>, times: Seq<Timestamp>, k: int) -> Option<
    JobRecordView,
> {
    claim_result(after_claims(rows, times.take(k)), times[k])
}

/// How many claims of the series returned a record.
pub open spec fn served(rows: Seq<JobRecordView>, times: Seq<Timestamp>) -> nat
    decreases times.len(),
{
    if times.len() == 0 {
        0
    } else {
        let before = served(rows, times.drop_last());
        if claim_result(after_claims(rows, times.drop_last()), times.last()) is Some {
            before + 1
        } else {
            before
        }
    }
}

/// How many rows are neither claimed nor finished.
pub open spec fn waiting_count(rows: Seq<JobRecordView>) -> nat
    decreases rows.len(),
{
    if rows.len() == 0 {
        0
    } else if rows.last().is_waiting() {
        waiting_count(rows.drop_last()) + 1
    } else {
        waiting_count(rows.drop_last())
    }
}

/// Every waiting row is due at every time of the series.
pub open spec fn all_due(rows: Seq<JobRecordView>, times: Seq<Timestamp>) -> bool {
    forall|i: int, k: int|
        0 <= i < rows.len() && 0 <= k < times.len() && (#[trigger] rows[i]).is_waiting()
            ==> rows[i].scheduled_at <= #[trigger] times[k]
}

/// `later` holds the rows of `earlier` after some claims: the same rows in
/// the same places, where only `running_at` may have been set.
pub open spec fn advanced(earlier: Seq<JobRecordView>, later: Seq<JobRecordView>) -> bool {
    &&& later.len() == earlier.len()
    &&& forall|i: int|
        0 <= i < earlier.len() ==> {
            &&& (#[trigger] later[i]).id == earlier[i].id
            &&& later[i].scheduled_at == earlier[i].scheduled_at
            &&& later[i].done_at == earlier[i].done_at
            &&& (earlier[i].running_at is Some ==> later[i].running_at is Some)
            &&& (later[i].is_waiting() ==> earlier[i].is_waiting())
        }
}

/// One claim only sets `running_at` of the row it takes.
pub proof fn lemma_claim_advances(rows: Seq<JobRecordView>, now: Timestamp)
    ensures
        advanced(rows, after_claim(rows, now)),
{
    lemma_claim_target(rows, now);
}

/// A series of claims only sets `running_at` of the rows it takes.
pub proof fn lemma_claims_advance(rows: Seq<JobRecordView>, times: Seq<Timestamp>)
    ensures
        advanced(rows, after_claims(rows, times)),
    decreases times.len(),
{
    if times.len() > 0 {
        lemma_claims_advance(rows, times.drop_last());
        lemma_claim_advances(after_claims(rows, times.drop_last()), times.last());
    }
}

/// The state after `k + 1` claims is the state after `k` claims with one more
/// claim served.
proof fn lemma_next_claim(rows: Seq<JobRecordView>, times: Seq<Timestamp>, k: int)
    requires
        0 <= k < times.len(),
    ensures
        after_claims(rows, times.take(k + 1)) == after_claim(
            after_claims(rows, times.take(k)),
            times[k],
        ),
{
    let next = times.take(k + 1);
    assert(next.drop_last() =~= times.take(k));
    assert(next.last() == times[k]);
}

/// The state after `m` claims is an advance of the state after `k <= m`.
proof fn lemma_advanced_between(rows: Seq<JobRecordView>, times: Seq<Timestamp>, k: int, m: int)
    requires
        0 <= k <= m <= times.len(),
    ensures
        advanced(after_claims(rows, times.take(k)), after_claims(rows, times.take(m))),
    decreases m - k,
{
    if k < m {
        lemma_advanced_between(rows, times, k, m - 1);
        lemma_next_claim(rows, times, m - 1);
        lemma_claim_advances(after_claims(rows, times.take(m - 1)), times[m - 1]);
    }
}

/// No record is handed out twice: of any series of claims against a store,
/// whoever issues them and in whatever order they are served, two claims that
/// return a record return different records.
pub proof fn theorem_no_record_claimed_twice(
    rows: Seq<JobRecordView>,
    times: Seq<Timestamp>,
    a: int,
    b: int,
)
    requires
        unique_ids(rows),
        0 <= a < b < times.len(),
        nth_claim(rows, times, a) is Some,
        nth_claim(rows, times, b) is Some,
    ensures
        nth_claim(rows, times, a).unwrap().id != nth_claim(rows, times, b).unwrap().id,
{
    let before_a = after_claims(rows, times.take(a));
    let after_a = after_claims(rows, times.take(a + 1));
    let before_b = after_claims(rows, times.take(b));
    lemma_claim_target(before_a, times[a]);
    lemma_claim_target(before_b, times[b]);
    let ia = claim_target(before_a, times[a]).unwrap();
    let ib = claim_target(before_b, times[b]).unwrap();
    lemma_next_claim(rows, times, a);
    assert(after_a[ia].running_at is Some);
    lemma_advanced_between(rows, times, a + 1, b);
    assert(before_b[ia].running_at is Some);
    assert(ia != ib);
    assert(times.take(0) =~= Seq::<Timestamp>::empty());
    lemma_advanced_between(rows, times, 0, a);
    lemma_advanced_between(rows, times, 0, b);
    assert(before_a[ia].id == rows[ia].id);
    assert(before_b[ib].id == rows[ib].id);
}

/// A record is never claimed before its `scheduled_at`: every record that a
/// claim of a series returns was due at the time of that claim, was waiting
/// until then, and is returned marked running at that time.
pub proof fn theorem_claimed_record_was_due(
    rows: Seq<JobRecordView>,
    times: Seq<Timestamp>,
    k: int,
)
    requires
        0 <= k < times.len(),
        nth_claim(rows, times, k) is Some,
    ensures
        nth_claim(rows, times, k).unwrap().scheduled_at <= times[k],
        nth_claim(rows, times, k).unwrap().running_at == Some(times[k]),
        nth_claim(rows, times, k).unwrap().done_at is None,
{
    lemma_claim_target(after_claims(rows, times.take(k)), times[k]);
}

/// A claim leaves every row that is not due, running or terminal as it is,
/// and returns none of them.
pub proof fn theorem_claim_skips_ineligible(rows: Seq<JobRecordView>, now: Timestamp, i: int)
    requires
        0 <= i < rows.len(),
        !rows[i].is_pending(now),
    ensures
        after_claim(rows, now)[i] == rows[i],
        claim_target(rows, now) != Some(i),
{
    lemma_claim_target(rows, now);
}

/// A claim against a store without a pending record, an empty store
/// included, returns nothing and changes nothing.
pub proof fn theorem_claim_without_pending(rows: Seq<JobRecordView>, now: Timestamp)
    requires
        !has_pending(rows, now),
    ensures
        claim_result(rows, now) is None,
        after_claim(rows, now) == rows,
{
    lemma_claim_target(rows, now);
}

proof fn lemma_waiting_count_zero(rows: Seq<JobRecordView>)
    ensures
        waiting_count(rows) == 0 <==> (forall|i: int|
            0 <= i < rows.len() ==> !(#[trigger] rows[i]).is_waiting()),
    decreases rows.len(),
{
    if rows.len() > 0 {
        let front = rows.drop_last();
        lemma_waiting_count_zero(front);
        if waiting_count(rows) == 0 {
            assert forall|i: int| 0 <= i < rows.len() implies !(#[trigger] rows[i]).is_waiting() by {
                if i < rows.len() - 1 {
                    assert(front[i] == rows[i]);
                }
            }
        } else if !rows.last().is_waiting() {
            let i = choose|i: int| 0 <= i < front.len() && (#[trigger] front[i]).is_waiting();
            assert(rows[i].is_waiting());
        }
    }
}

proof fn lemma_waiting_count_after_claim(rows: Seq<JobRecordView>, i: int, now: Timestamp)
    requires
        0 <= i < rows.len(),
        rows[i].is_waiting(),
    ensures
        waiting_count(rows.update(i, rows[i].claimed(now))) + 1 == waiting_count(rows),
    decreases rows.len(),
{
    let updated = rows.update(i, rows[i].claimed(now));
    if i == rows.len() - 1 {
        assert(updated.drop_last() =~= rows.drop_last());
    } else {
        assert(updated.drop_last() =~= rows.drop_last().update(i, rows[i].claimed(now)));
        lemma_waiting_count_after_claim(rows.drop_last(), i, now);
    }
}

/// Every claim is served while work is left: against a store with M waiting
/// records that are due throughout, a series of n claims hands out exactly
/// min(n, M) records, and M minus that many are still waiting afterwards.
pub proof fn theorem_claims_served(rows: Seq<JobRecordView>, times: Seq<Timestamp>)
    requires
        all_due(rows, times),
    ensures
        served(rows, times) == if times.len() <= waiting_count(rows) {
            times.len()
        } else {
            waiting_count(rows)
        },
        waiting_count(after_claims(rows, times)) + served(rows, times) == waiting_count(rows),
    decreases times.len(),
{
    if times.len() > 0 {
        let earlier = times.drop_last();
        let now = times.last();
        let state = after_claims(rows, earlier);
        assert(all_due(rows, earlier)) by {
            assert forall|i: int, k: int|
                0 <= i < rows.len() && 0 <= k < earlier.len() && (
                #[trigger] rows[i]).is_waiting() implies rows[i].scheduled_at
                <= #[trigger] earlier[k] by {
                assert(earlier[k] == times[k]);
            }
        }
        theorem_claims_served(rows, earlier);
        lemma_claims_advance(rows, earlier);
        lemma_claim_target(state, now);
        lemma_waiting_count_zero(state);
        if waiting_count(state) > 0 {
            let w = choose|i: int| 0 <= i < state.len() && (#[trigger] state[i]).is_waiting();
            assert(rows[w].is_waiting());
            assert(rows[w].scheduled_at <= times[times.len() - 1]);
            assert(state[w].is_pending(now));
            assert(has_pending(state, now));
            let t = claim_target(state, now).unwrap();
            lemma_waiting_count_after_claim(state, t, now);
        } else {
            assert(!has_pending(state, now));
        }
    }
}

/// The identifiers of the records that the claims of the series returned,
/// taken together.
pub open spec fn claimed_ids(rows: Seq<JobRecordView>, times: Seq<Timestamp>) -> Set<u128>
    decreases times.len(),
{
    if times.len() == 0 {
        Set::empty()
    } else {
        let before = claimed_ids(rows, times.drop_last());
        match claim_result(after_claims(rows, times.drop_last()), times.last()) {
            Some(record) => before.insert(record.id),
            None => before,
        }
    }
}

/// Every identifier that a series of claims returned belongs to a row that
/// the series left marked running.
proof fn lemma_claimed_rows_are_running(rows: Seq<JobRecordView>, times: Seq<Timestamp>)
    ensures
        claimed_ids(rows, times).finite(),
        forall|id: u128| #[trigger]
            claimed_ids(rows, times).contains(id) ==> exists|i: int|
                0 <= i < rows.len() && (#[trigger] rows[i]).id == id && after_claims(
                    rows,
                    times,
                )[i].running_at is Some,
    decreases times.len(),
{
    if times.len() > 0 {
        let earlier = times.drop_last();
        let now = times.last();
        let state = after_claims(rows, earlier);
        let after = after_claims(rows, times);
        lemma_claimed_rows_are_running(rows, earlier);
        lemma_claims_advance(rows, earlier);
        lemma_claim_advances(state, now);
        lemma_claim_target(state, now);
        assert forall|id: u128| #[trigger] claimed_ids(rows, times).contains(id) implies exists|
            i: int,
        |
            0 <= i < rows.len() && (#[trigger] rows[i]).id == id && after[i].running_at is Some by {
            if claimed_ids(rows, earlier).contains(id) {
                let i = choose|i: int|
                    0 <= i < rows.len() && (#[trigger] rows[i]).id == id
                        && state[i].running_at is Some;
                assert(rows[i].id == id && after[i].running_at is Some);
            } else {
                let t = claim_target(state, now).unwrap();
                assert(rows[t].id == id && after[t].running_at is Some);
            }
        }
    }
}

/// The records that a series of claims hands out are all different: the
/// identifiers returned to all claimants together are as many as the claims
/// that returned a record. With every waiting record due, that is min(n, M)
/// identifiers for n claims against M waiting records.
pub proof fn theorem_claimed_ids_count(rows: Seq<JobRecordView>, times: Seq<Timestamp>)
    requires
        unique_ids(rows),
    ensures
        claimed_ids(rows, times).finite(),
        claimed_ids(rows, times).len() == served(rows, times),
        all_due(rows, times) ==> claimed_ids(rows, times).len() == if times.len() <= waiting_count(
            rows,
        ) {
            times.len()
        } else {
            waiting_count(rows)
        },
    decreases times.len(),
{
    if all_due(rows, times) {
        theorem_claims_served(rows, times);
    }
    if times.len() > 0 {
        let earlier = times.drop_last();
        let now = times.last();
        let state = after_claims(rows, earlier);
        theorem_claimed_ids_count(rows, earlier);
        lemma_claimed_rows_are_running(rows, earlier);
        lemma_claims_advance(rows, earlier);
        lemma_claim_target(state, now);
        if claim_result(state, now) is Some {
            let t = claim_target(state, now).unwrap();
            let id = state[t].id;
            if claimed_ids(rows, earlier).contains(id) {
                let i = choose|i: int|
                    0 <= i < rows.len() && (#[trigger] rows[i]).id == id
                        && state[i].running_at is Some;
                assert(rows[t].id == id);
                assert(i == t);
            }
        }
    }
}

/// `complete` on a terminal record is a no-op: whatever the outcome and the
/// time, the store is left exactly as it was.
pub proof fn theorem_complete_terminal_is_noop(
    rows: Seq<JobRecordView>,
    id: u128,
    outcome: Result<(), Seq<char>>,
    now: Timestamp,
)
    requires
        forall|i: int| 0 <= i < rows.len() && (#[trigger] rows[i]).id == id ==> rows[i].is_terminal(),
    ensures
        after_complete(rows, id, outcome, now) == rows,
{
    assert(after_complete(rows, id, outcome, now) =~= rows);
}

/// `complete` is idempotent: a second `complete` of the same record, with any
/// outcome and at any time, changes nothing.
pub proof fn theorem_complete_is_idempotent(
    rows: Seq<JobRecordView>,
    id: u128,
    first: Result<(), Seq<char>>,
    first_at: Timestamp,
    second: Result<(), Seq<char>>,
    second_at: Timestamp,
)
    ensures
        after_complete(after_complete(rows, id, first, first_at), id, second, second_at)
            == after_complete(rows, id, first, first_at),
{
    let once = after_complete(rows, id, first, first_at);
    assert(after_complete(once, id, second, second_at) =~= once);
}

/// A terminal record is never claimed again: no claim returns it or changes
/// it, at any time.
pub proof fn theorem_terminal_never_reclaimed(rows: Seq<JobRecordView>, now: Timestamp, i: int)
    requires
        0 <= i < rows.len(),
        rows[i].is_terminal(),
    ensures
        after_claim(rows, now)[i] == rows[i],
        claim_target(rows, now) != Some(i),
{
    theorem_claim_skips_ineligible(rows, now, i);
}

} // verus!
