//! The consumer side: one claim-and-execute cycle, and the decisions of a
//! polling worker.
//!
//! A worker sleeps for the poll interval, claims at most one record, runs
//! it, records the outcome and sleeps again. Sleeping and running a job
//! routine happen outside this crate; what a worker does next is decided
//! here, by `worker_step`.

use vstd::prelude::*;
use crate::clock;
use crate::jobs::record::{outcome_view, JobRecord, JobRecordView, Timestamp};
use crate::jobs::registry::{execute_job_by_name, recorded_outcome, JobError, JobKind};
use crate::jobs::store::{
    after_claim,
    after_complete,
    claim_result,
    claim_target,
    has_pending,
    lemma_claim_target,
    unique_ids,
    JobStore,
};

verus! {

/// Seconds a worker sleeps between two polls.
pub const POLL_INTERVAL_SECS: u64 = 5;

/// `result` is a possible result of dispatching `record` with `handler`.
pub open spec fn dispatched<F: Fn(JobKind, &str) -> Result<(), JobError>>(
    handler: &F,
    record: JobRecordView,
    result: Result<(), JobError>,
) -> bool {
    match JobKind::of_name(record.task_name) {
        Some(kind) => exists|payload: &str|
            payload@ == record.payload && #[trigger] call_ensures(
                *handler,
                (kind, payload),
                result,
            ),
        None => result matches Err(JobError::UnknownJobKind(name)) && name@ == record.task_name,
    }
}

/// The rows after one worker cycle: a claim at `claim_time` and, if it took
/// a record, the completion of that record at `done_time` with what its
/// dispatch returned.
pub open spec fn rows_after_cycle(
    rows: Seq<JobRecordView>,
    claim_time: Timestamp,
    result: Result<(), JobError>,
    done_time: Timestamp,
) -> Seq<JobRecordView> {
    match claim_result(rows, claim_time) {
        Some(record) => after_complete(
            after_claim(rows, claim_time),
            record.id,
            recorded_outcome(result),
            done_time,
        ),
        None => rows,
    }
}

/// A pool of polling workers.
#[derive(Debug, Clone, Copy)]
pub struct WorkerPool {
    worker_count: usize,
}

impl WorkerPool {
    /// Number of workers the pool runs.
    pub closed spec fn spec_worker_count(&self) -> usize {
        self.worker_count
    }

    pub fn new(worker_count: usize) -> (pool: WorkerPool)
        ensures
            pool.spec_worker_count() == worker_count,
    {
        WorkerPool { worker_count }
    }

    /// Number of workers the pool runs.
    pub fn worker_count(&self) -> (count: usize)
        ensures
            count == self.spec_worker_count(),
    {
        self.worker_count
    }

    /// Records what the dispatch of record `id` returned: the record becomes
    /// terminal at `now`, with the message of the failure if there was one.
    pub fn record_outcome(
        store: &mut JobStore,
        id: u128,
        result: Result<(), JobError>,
        now: Timestamp,
    )
        requires
            old(store).wf(),
        ensures
            final(store).wf(),
            final(store).next_id() == old(store).next_id(),
            final(store)@ == after_complete(old(store)@, id, recorded_outcome(result), now),
    {
        let outcome = match result {
            Ok(_) => Ok(()),
            Err(e) => Err(e.message()),
        };
        store.complete_at(id, outcome, now);
    }

    /// One cycle of a worker: claims the earliest pending record, runs it
    /// through `handler` and records the outcome. Returns whether a record
    /// was claimed; when none is pending the store is left as it is.
    ///
    /// The clock decides the two times and the handler the result; whatever
    /// they are, the store changes as `rows_after_cycle` says for them.
    pub fn claim_and_execute_job<F>(store: &mut JobStore, handler: &F) -> (executed: bool) where
        F: Fn(JobKind, &str) -> Result<(), JobError>,

        requires
            old(store).wf(),
            forall|kind: JobKind, payload: &str| call_requires(*handler, (kind, payload)),
        ensures
            final(store).wf(),
            final(store).next_id() == old(store).next_id(),
            exists|claim_time: Timestamp, result: Result<(), JobError>, done_time: Timestamp|
                {
                    &&& executed == has_pending(old(store)@, claim_time)
                    &&& claim_result(old(store)@, claim_time) matches Some(record) ==> dispatched(
                        handler,
                        record,
                        result,
                    )
                    &&& #[trigger] rows_after_cycle(old(store)@, claim_time, result, done_time)
                        == final(store)@
                },
    {
        let claim_time = clock::now();
        match store.claim_one(claim_time) {
            None => {
                assert(rows_after_cycle(old(store)@, claim_time, Ok(()), claim_time) == store@);
                false
            },
            Some(record) => {
                let result = execute_job_by_name(
                    record.task_name.as_str(),
                    record.payload.as_str(),
                    handler,
                );
                let ghost given = result;
                let done_time = clock::now();
                Self::record_outcome(store, record.id, result, done_time);
                assert(dispatched(handler, record@, given));
                assert(rows_after_cycle(old(store)@, claim_time, given, done_time) == store@);
                true
            },
        }
    }
}

/// A claimed record whose name matches no kind ends as a failure: after the
/// cycle it is terminal, its error is "Unknown job type: " followed by the
/// name, and every other record is as the claim left it.
pub proof fn theorem_unknown_kind_is_recorded<F: Fn(JobKind, &str) -> Result<(), JobError>>(
    handler: &F,
    rows: Seq<JobRecordView>,
    claim_time: Timestamp,
    result: Result<(), JobError>,
    done_time: Timestamp,
)
    requires
        unique_ids(rows),
        claim_result(rows, claim_time) matches Some(record) && JobKind::of_name(record.task_name)
            is None && dispatched(handler, record, result),
    ensures
        ({
            let i = claim_target(rows, claim_time).unwrap();
            let after = rows_after_cycle(rows, claim_time, result, done_time);
            &&& after.len() == rows.len()
            &&& after[i].is_terminal()
            &&& after[i].done_at == Some(done_time)
            &&& after[i].error == Some("Unknown job type: "@ + rows[i].task_name)
            &&& forall|j: int| 0 <= j < rows.len() && j != i ==> after[j] == rows[j]
        }),
{
    lemma_claim_target(rows, claim_time);
    let i = claim_target(rows, claim_time).unwrap();
    let after = rows_after_cycle(rows, claim_time, result, done_time);
    assert forall|j: int| 0 <= j < rows.len() && j != i implies after[j] == rows[j] by {
        assert(rows[j].id != rows[i].id);
    }
}

/// Where a worker stands in its cycle.
#[derive(Debug, Clone, Copy, PartialEq, Eq, Structural)]
pub enum WorkerState {
    /// Between two polls.
    Idle,
    /// Waiting for the store to answer a claim.
    Polling,
    /// Running the routine of the record with this identifier.
    Executing { id: u128 },
}

/// What happened since the worker's last step.
#[derive(Debug)]
pub enum WorkerEvent {
    /// The poll interval has elapsed.
    Woke,
    /// The claim returned this record.
    Claimed(JobRecord),
    /// The claim found no pending record.
    NothingPending,
    /// The store could not be reached; holds the reason.
    StoreUnavailable(String),
    /// The dispatch of the claimed record returned.
    Finished(Result<(), JobError>),
    /// The outcome has been recorded.
    Completed,
}

/// What the worker is to do next.
#[derive(Debug)]
pub enum WorkerAction {
    /// Sleep for this many seconds, then report `Woke`.
    Sleep { seconds: u64 },
    /// Claim one record, then report what the store answered.
    Claim,
    /// Dispatch this record, then report `Finished` with the result.
    Execute(JobRecord),
    /// Complete record `id` with `outcome`, then report `Completed`.
    Complete { id: u128, outcome: Result<(), String> },
}

/// The state a worker is in after `event` arrived in `state`.
pub open spec fn next_state(state: WorkerState, event: WorkerEvent) -> WorkerState {
    match (state, event) {
        (WorkerState::Idle, WorkerEvent::Woke) => WorkerState::Polling,
        (WorkerState::Polling, WorkerEvent::Claimed(record)) => WorkerState::Executing {
            id: record.id,
        },
        _ => WorkerState::Idle,
    }
}

/// `action` is what a worker does after `event` arrived in `state`.
pub open spec fn is_next_action(state: WorkerState, event: WorkerEvent, action: WorkerAction) -> bool {
    match (state, event) {
        (WorkerState::Idle, WorkerEvent::Woke) => action is Claim,
        (WorkerState::Polling, WorkerEvent::Claimed(record)) => action matches WorkerAction::Execute(
            r,
        ) && r@ == record@,
        (
            WorkerState::Executing { id },
            WorkerEvent::Finished(result),
        ) => action matches WorkerAction::Complete { id: done, outcome } && done == id
            && outcome_view(outcome) == recorded_outcome(result),
        _ => action matches WorkerAction::Sleep { seconds } && seconds == POLL_INTERVAL_SECS,
    }
}

/// The state and the first action of a worker that starts: it sleeps before
/// its first poll.
pub fn worker_start() -> (begin: (WorkerState, WorkerAction))
    ensures
        begin.0 == WorkerState::Idle,
        begin.1 matches WorkerAction::Sleep { seconds } && seconds == POLL_INTERVAL_SECS,
{
    (WorkerState::Idle, WorkerAction::Sleep { seconds: POLL_INTERVAL_SECS })
}

/// Decides what a worker does next.
///
/// Waking up leads to a claim; a claimed record is executed and then
/// completed with what its dispatch returned. Everything else sends the
/// worker back to sleep: an empty claim, a recorded outcome, an unreachable
/// store, and any event that does not fit the state. There is no state that a
/// worker cannot leave, and no event that stops it.
pub fn worker_step(state: WorkerState, event: WorkerEvent) -> (next: (WorkerState, WorkerAction))
    ensures
        next.0 == next_state(state, event),
        is_next_action(state, event, next.1),
{
    match (state, event) {
        (WorkerState::Idle, WorkerEvent::Woke) => (WorkerState::Polling, WorkerAction::Claim),
        (WorkerState::Polling, WorkerEvent::Claimed(record)) => (
            WorkerState::Executing { id: record.id },
            WorkerAction::Execute(record),
        ),
        (WorkerState::Executing { id }, WorkerEvent::Finished(result)) => {
            let outcome = match result {
                Ok(_) => Ok(()),
                Err(e) => Err(e.message()),
            };
            (WorkerState::Idle, WorkerAction::Complete { id, outcome })
        },
        _ => (WorkerState::Idle, WorkerAction::Sleep { seconds: POLL_INTERVAL_SECS }),
    }
}

/// Nothing stops a worker: from idle, waking up leads to a claim, and two
/// steps after any other state the worker is idle or claiming again,
/// whatever the two events were.
pub proof fn theorem_worker_keeps_polling(state: WorkerState, first: WorkerEvent, second: WorkerEvent)
    ensures
        next_state(WorkerState::Idle, WorkerEvent::Woke) == WorkerState::Polling,
        state != WorkerState::Idle ==> next_state(next_state(state, first), second)
            == WorkerState::Idle || next_state(next_state(state, first), second)
            == WorkerState::Polling,
{
}

} // verus!
