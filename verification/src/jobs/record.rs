//! The persisted unit of work and its life cycle.
//!
//! A record is created pending, is claimed by exactly one worker (which sets
//! `running_at`) and is completed exactly once (which sets `done_at`). The
//! transitions are defined here on the mathematical view of a record; the
//! executable methods are proved to implement them.

use vstd::prelude::*;

verus! {

/// Microseconds since the Unix epoch, UTC.
pub type Timestamp = i64;

/// One row of the job table.
#[derive(Debug)]
pub struct JobRecord {
    /// Unique within a store; assigned at insert.
    pub id: u128,
    /// Name of the job kind that handles this record.
    pub task_name: String,
    /// Traceability hash of the serialized payload.
    pub task_hash: String,
    /// Serialized arguments; opaque to the store.
    pub payload: String,
    pub timeout_msecs: i64,
    pub max_retries: i32,
    pub retries: i32,
    pub created_at: Timestamp,
    /// Earliest time at which the record may be claimed.
    pub scheduled_at: Timestamp,
    /// Set when a worker claims the record.
    pub running_at: Option<Timestamp>,
    /// Set when the record reaches its terminal state.
    pub done_at: Option<Timestamp>,
    /// Failure detail of a record that completed with a failure.
    pub error: Option<String>,
}

/// Mathematical value of a [`JobRecord`].
pub struct JobRecordView {
    pub id: u128,
    pub task_name: Seq<char>,
    pub task_hash: Seq<char>,
    pub payload: Seq<char>,
    pub timeout_msecs: i64,
    pub max_retries: i32,
    pub retries: i32,
    pub created_at: Timestamp,
    pub scheduled_at: Timestamp,
    pub running_at: Option<Timestamp>,
    pub done_at: Option<Timestamp>,
    pub error: Option<Seq<char>>,
}

/// What a producer supplies to create a record.
#[derive(Debug)]
pub struct NewJob {
    pub task_name: String,
    pub task_hash: String,
    pub payload: String,
    pub timeout_msecs: i64,
    pub max_retries: i32,
    pub scheduled_at: Timestamp,
}

/// Mathematical value of a [`NewJob`].
pub struct NewJobView {
    pub task_name: Seq<char>,
    pub task_hash: Seq<char>,
    pub payload: Seq<char>,
    pub timeout_msecs: i64,
    pub max_retries: i32,
    pub scheduled_at: Timestamp,
}

/// View of an optional string.
pub open spec fn opt_text(s: Option<String>) -> Option<Seq<char>> {
    match s {
        Some(t) => Some(t@),
        None => None,
    }
}

/// View of a job outcome: success, or failure with its message.
pub open spec fn outcome_view(outcome: Result<(), String>) -> Result<(), Seq<char>> {
    match outcome {
        Ok(_) => Ok(()),
        Err(m) => Err(m@),
    }
}

impl View for JobRecord {
    type V = JobRecordView;

    open spec fn view(&self) -> JobRecordView {
        JobRecordView {
            id: self.id,
            task_name: self.task_name@,
            task_hash: self.task_hash@,
            payload: self.payload@,
            timeout_msecs: self.timeout_msecs,
            max_retries: self.max_retries,
            retries: self.retries,
            created_at: self.created_at,
            scheduled_at: self.scheduled_at,
            running_at: self.running_at,
            done_at: self.done_at,
            error: opt_text(self.error),
        }
    }
}

impl View for NewJob {
    type V = NewJobView;

    open spec fn view(&self) -> NewJobView {
        NewJobView {
            task_name: self.task_name@,
            task_hash: self.task_hash@,
            payload: self.payload@,
            timeout_msecs: self.timeout_msecs,
            max_retries: self.max_retries,
            scheduled_at: self.scheduled_at,
        }
    }
}

impl JobRecordView {
    /// Finished, with success or failure; never claimed again.
    pub open spec fn is_terminal(self) -> bool {
        self.done_at is Some
    }

    /// Claimed by a worker and not yet finished.
    pub open spec fn is_running(self) -> bool {
        self.running_at is Some && self.done_at is None
    }

    /// Neither claimed nor finished.
    pub open spec fn is_waiting(self) -> bool {
        self.running_at is None && self.done_at is None
    }

    /// Eligible for a claim at time `now`: waiting and due.
    pub open spec fn is_pending(self, now: Timestamp) -> bool {
        self.is_waiting() && self.scheduled_at <= now
    }

    /// The record after a worker claimed it at `now`.
    pub open spec fn claimed(self, now: Timestamp) -> JobRecordView {
        JobRecordView { running_at: Some(now), ..self }
    }

    /// Running for longer than its timeout allows: claimed, not finished, and
    /// `timeout_msecs` milliseconds have passed since the claim.
    pub open spec fn is_stalled(self, now: Timestamp) -> bool {
        self.is_running() && self.running_at.unwrap() + self.timeout_msecs * 1000 < now
    }

    /// The record given back to the queue: waiting again, as before its
    /// claim.
    pub open spec fn released(self) -> JobRecordView {
        JobRecordView { running_at: None, ..self }
    }

    /// The record after `complete` at `now`: a terminal record is left as it
    /// is; any other record gets `done_at`, and on failure the message.
    pub open spec fn completed(self, outcome: Result<(), Seq<char>>, now: Timestamp) -> JobRecordView {
        if self.is_terminal() {
            self
        } else {
            match outcome {
                Ok(_) => JobRecordView { done_at: Some(now), ..self },
                Err(message) => JobRecordView { done_at: Some(now), error: Some(message), ..self },
            }
        }
    }
}

impl NewJobView {
    /// The record a store creates from this request under `id` at `now`.
    pub open spec fn into_record(self, id: u128, now: Timestamp) -> JobRecordView {
        JobRecordView {
            id,
            task_name: self.task_name,
            task_hash: self.task_hash,
            payload: self.payload,
            timeout_msecs: self.timeout_msecs,
            max_retries: self.max_retries,
            retries: 0,
            created_at: now,
            scheduled_at: self.scheduled_at,
            running_at: None,
            done_at: None,
            error: None,
        }
    }
}

impl Clone for JobRecord {
    fn clone(&self) -> (copy: JobRecord)
        ensures
            copy@ == self@,
    {
        JobRecord {
            id: self.id,
            task_name: self.task_name.clone(),
            task_hash: self.task_hash.clone(),
            payload: self.payload.clone(),
            timeout_msecs: self.timeout_msecs,
            max_retries: self.max_retries,
            retries: self.retries,
            created_at: self.created_at,
            scheduled_at: self.scheduled_at,
            running_at: self.running_at,
            done_at: self.done_at,
            error: match &self.error {
                Some(e) => Some(e.clone()),
                None => None,
            },
        }
    }
}

impl JobRecord {
    /// Whether the record has finished.
    pub fn is_terminal(&self) -> (r: bool)
        ensures
            r == self@.is_terminal(),
    {
        self.done_at.is_some()
    }

    /// Whether a worker holds the record.
    pub fn is_running(&self) -> (r: bool)
        ensures
            r == self@.is_running(),
    {
        self.running_at.is_some() && self.done_at.is_none()
    }

    /// Whether the record may be claimed at `now`.
    pub fn is_pending(&self, now: Timestamp) -> (r: bool)
        ensures
            r == self@.is_pending(now),
    {
        self.done_at.is_none() && self.running_at.is_none() && self.scheduled_at <= now
    }

    /// Whether the record has been running for longer than its timeout
    /// allows.
    pub fn is_stalled(&self, now: Timestamp) -> (r: bool)
        ensures
            r == self@.is_stalled(now),
    {
        match self.running_at {
            Some(since) => {
                let deadline: i128 = since as i128 + self.timeout_msecs as i128 * 1000;
                self.done_at.is_none() && deadline < now as i128
            },
            None => false,
        }
    }

    /// Marks the record as claimed at `now`.
    pub fn mark_running(&mut self, now: Timestamp)
        ensures
            final(self)@ == old(self)@.claimed(now),
    {
        self.running_at = Some(now);
    }

    /// Marks the record terminal at `now` with the given outcome. Does
    /// nothing to a record that is already terminal.
    pub fn mark_done(&mut self, outcome: Result<(), String>, now: Timestamp)
        ensures
            final(self)@ == old(self)@.completed(outcome_view(outcome), now),
    {
        if self.done_at.is_none() {
            self.done_at = Some(now);
            match outcome {
                Ok(_) => {},
                Err(message) => {
                    self.error = Some(message);
                },
            }
        }
    }
}

} // verus!
