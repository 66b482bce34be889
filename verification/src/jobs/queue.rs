//! The producer side: turning a job into a pending record.

use vstd::prelude::*;
use crate::clock;
use crate::jobs::hashing::{content_hash, content_hash_text};
use crate::jobs::record::{JobRecordView, NewJob, NewJobView, Timestamp};
use crate::jobs::registry::Job;
use crate::jobs::store::{JobStore, StoreError};

verus! {

/// Time a job may run, in milliseconds, as recorded on every enqueued record.
pub const DEFAULT_TIMEOUT_MSECS: i64 = 30000;

/// Retry budget recorded on every enqueued record.
pub const DEFAULT_MAX_RETRIES: i32 = 3;

/// Why an enqueue did not create a record.
#[derive(Debug)]
pub enum EnqueueError {
    /// The job's arguments could not be serialized; holds the serializer's
    /// message.
    SerializationFailed(String),
    /// The store did not accept the record.
    EnqueueFailed(StoreError),
}

impl EnqueueError {
    /// The error as text.
    pub open spec fn message_text(self) -> Seq<char> {
        match self {
            EnqueueError::SerializationFailed(detail) => detail@,
            EnqueueError::EnqueueFailed(_) => "job store is exhausted"@,
        }
    }

    /// The error as text.
    pub fn message(&self) -> (text: String)
        ensures
            text@ == self.message_text(),
    {
        match self {
            EnqueueError::SerializationFailed(detail) => detail.clone(),
            EnqueueError::EnqueueFailed(_) => "job store is exhausted".to_owned(),
        }
    }
}

/// The record request that an enqueue of `payload` under `task_name` at `now`
/// makes: due at once, with the default policy and the hash of the payload.
pub open spec fn enqueued_job(task_name: Seq<char>, payload: Seq<char>, now: Timestamp) -> NewJobView {
    NewJobView {
        task_name,
        task_hash: content_hash_text(payload),
        payload,
        timeout_msecs: DEFAULT_TIMEOUT_MSECS,
        max_retries: DEFAULT_MAX_RETRIES,
        scheduled_at: now,
    }
}

/// What an enqueue does to the rows of a store whose next identifier is
/// `next_id`, given what serializing the job returned: one record more when
/// the job serialized and an identifier is left, no change otherwise.
pub open spec fn rows_after_enqueue(
    rows: Seq<JobRecordView>,
    next_id: u128,
    task_name: Seq<char>,
    serialized: Result<String, String>,
    now: Timestamp,
) -> Seq<JobRecordView> {
    match serialized {
        Ok(payload) if next_id < u128::MAX => rows.push(
            enqueued_job(task_name, payload@, now).into_record(next_id, now),
        ),
        _ => rows,
    }
}

/// What an enqueue returns in the same situation: the hash of the payload,
/// or the reason why no record was created.
pub open spec fn enqueue_returns(
    next_id: u128,
    serialized: Result<String, String>,
    result: Result<String, EnqueueError>,
) -> bool {
    match serialized {
        Err(detail) => result matches Err(EnqueueError::SerializationFailed(d)) && d@ == detail@,
        Ok(payload) => if next_id < u128::MAX {
            result matches Ok(hash) && hash@ == content_hash_text(payload@)
        } else {
            result matches Err(EnqueueError::EnqueueFailed(StoreError::Exhausted))
        },
    }
}

/// The enqueuer. It carries no state of its own: the timeout and the retry
/// budget it writes are the same for every record.
#[derive(Debug, Clone, Copy)]
pub struct JobQueue {}

impl JobQueue {
    pub fn new() -> (queue: JobQueue) {
        JobQueue {  }
    }

    /// The record request for `payload` under `task_name`, due at `now`.
    pub fn prepare(&self, task_name: &str, payload: String, now: Timestamp) -> (job: NewJob)
        ensures
            job@ == enqueued_job(task_name@, payload@, now),
    {
        let task_hash = content_hash(payload.as_str());
        NewJob {
            task_name: task_name.to_owned(),
            task_hash,
            payload,
            timeout_msecs: DEFAULT_TIMEOUT_MSECS,
            max_retries: DEFAULT_MAX_RETRIES,
            scheduled_at: now,
        }
    }

    /// Enqueues `job`, due now: serializes it, hashes the serialized form and
    /// inserts a pending record. Returns the hash.
    ///
    /// The job decides its name and its serialized form, and the clock the
    /// time; whatever they return, the store changes as `enqueue_serialized`
    /// says for those values.
    pub fn enqueue<J: Job>(&self, store: &mut JobStore, job: &J) -> (result: Result<
        String,
        EnqueueError,
    >)
        requires
            old(store).wf(),
        ensures
            final(store).wf(),
            exists|task_name: &'static str, serialized: Result<String, String>, now: Timestamp|
                {
                    &&& enqueue_returns(old(store).next_id(), serialized, result)
                    &&& #[trigger] rows_after_enqueue(
                        old(store)@,
                        old(store).next_id(),
                        task_name@,
                        serialized,
                        now,
                    ) == final(store)@
                },
    {
        let now = clock::now();
        self.enqueue_at(store, job, now)
    }

    /// Enqueues `job`, due at `now`.
    ///
    /// The job decides its name and its serialized form; whatever they are,
    /// the store changes as `enqueue_serialized` says for those values.
    pub fn enqueue_at<J: Job>(&self, store: &mut JobStore, job: &J, now: Timestamp) -> (result:
        Result<String, EnqueueError>)
        requires
            old(store).wf(),
        ensures
            final(store).wf(),
            exists|task_name: &'static str, serialized: Result<String, String>|
                {
                    &&& enqueue_returns(old(store).next_id(), serialized, result)
                    &&& #[trigger] rows_after_enqueue(
                        old(store)@,
                        old(store).next_id(),
                        task_name@,
                        serialized,
                        now,
                    ) == final(store)@
                },
    {
        let serialized = job.to_json();
        let task_name = job.job_name();
        let ghost given = serialized;
        let result = self.enqueue_serialized(store, task_name, serialized, now);
        assert(rows_after_enqueue(old(store)@, old(store).next_id(), task_name@, given, now)
            == store@);
        result
    }

    /// Enqueues a job that has been serialized already: `serialized` is what
    /// serializing it returned.
    ///
    /// A serialization failure is returned as it is and the store is not
    /// touched. Otherwise one record is appended: pending, due at `now`,
    /// never retried, with the default timeout and retry budget, under the
    /// store's next identifier; the hash of the payload is stored on it and
    /// returned. Existing records are not consulted: the same payload
    /// enqueued twice gives two records.
    pub fn enqueue_serialized(
        &self,
        store: &mut JobStore,
        task_name: &str,
        serialized: Result<String, String>,
        now: Timestamp,
    ) -> (result: Result<String, EnqueueError>)
        requires
            old(store).wf(),
        ensures
            final(store).wf(),
            enqueue_returns(old(store).next_id(), serialized, result),
            final(store)@ == rows_after_enqueue(
                old(store)@,
                old(store).next_id(),
                task_name@,
                serialized,
                now,
            ),
            final(store).next_id() == if final(store)@.len() == old(store)@.len() {
                old(store).next_id() as int
            } else {
                old(store).next_id() + 1
            },
    {
        match serialized {
            Err(detail) => Err(EnqueueError::SerializationFailed(detail)),
            Ok(payload) => {
                let job = self.prepare(task_name, payload, now);
                let task_hash = job.task_hash.clone();
                match store.insert(job, now) {
                    Ok(_) => Ok(task_hash),
                    Err(e) => Err(EnqueueError::EnqueueFailed(e)),
                }
            },
        }
    }
}

} // verus!
