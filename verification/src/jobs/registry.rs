//! The closed set of job kinds and dispatch by kind name.
//!
//! A record names its kind by a string. Dispatch resolves that name against
//! the fixed set of kinds and hands the payload to the routine of the kind;
//! a name that matches no kind is a failure of its own, and the record is
//! completed with it.

use vstd::prelude::*;
use crate::text::{join, str_equal};

verus! {

/// A job instance as producers see it: it names its kind, serializes its
/// arguments, and knows how to run.
pub trait Job: Send + Sync + 'static {
    /// Name of the kind; the key under which the record is dispatched.
    fn job_name(&self) -> &'static str;

    /// Runs the job. A routine reports failure by returning `Err`; it does
    /// not abort the process.
    fn execute(&self) -> Result<(), String>;

    /// The job's arguments in serialized form, or why they cannot be
    /// serialized.
    fn to_json(&self) -> Result<String, String>;
}

/// The kinds of job this system runs.
#[derive(Debug, Clone, Copy, PartialEq, Eq, Structural)]
pub enum JobKind {
    WelcomeEmail,
    ProcessTopic,
}

/// Why a claimed record could not be run to success.
#[derive(Debug)]
pub enum JobError {
    /// The payload is not a serialized instance of the kind; holds the
    /// decoder's message.
    Serialization(String),
    /// The record names no registered kind; holds the name.
    UnknownJobKind(String),
    /// The routine itself reported failure; holds its message.
    Execution(String),
}

impl JobKind {
    /// The name under which records of this kind are stored.
    pub open spec fn name_text(self) -> Seq<char> {
        match self {
            JobKind::WelcomeEmail => "welcome_email"@,
            JobKind::ProcessTopic => "process_topic"@,
        }
    }

    /// The kind registered under `name`, if there is one.
    pub open spec fn of_name(name: Seq<char>) -> Option<JobKind> {
        if name == "welcome_email"@ {
            Some(JobKind::WelcomeEmail)
        } else if name == "process_topic"@ {
            Some(JobKind::ProcessTopic)
        } else {
            None
        }
    }

    /// The name under which records of this kind are stored.
    pub fn name(&self) -> (name: &'static str)
        ensures
            name@ == self.name_text(),
    {
        match self {
            JobKind::WelcomeEmail => "welcome_email",
            JobKind::ProcessTopic => "process_topic",
        }
    }

    /// Looks a kind up by its name.
    pub fn from_name(name: &str) -> (kind: Option<JobKind>)
        ensures
            kind == JobKind::of_name(name@),
    {
        if str_equal(name, "welcome_email") {
            Some(JobKind::WelcomeEmail)
        } else if str_equal(name, "process_topic") {
            Some(JobKind::ProcessTopic)
        } else {
            None
        }
    }

    /// Every kind is found again under its own name.
    pub proof fn lemma_name_round_trip(self)
        ensures
            JobKind::of_name(self.name_text()) == Some(self),
    {
        reveal_strlit("welcome_email");
        reveal_strlit("process_topic");
        assert("welcome_email"@[0] != "process_topic"@[0]);
    }
}

impl JobError {
    /// The failure detail that is persisted on the record.
    pub open spec fn message_text(self) -> Seq<char> {
        match self {
            JobError::Serialization(detail) => "Failed to deserialize job: "@ + detail@,
            JobError::UnknownJobKind(name) => "Unknown job type: "@ + name@,
            JobError::Execution(detail) => detail@,
        }
    }

    /// The failure detail that is persisted on the record.
    pub fn message(&self) -> (text: String)
        ensures
            text@ == self.message_text(),
    {
        match self {
            JobError::Serialization(detail) => join("Failed to deserialize job: ", detail.as_str()),
            JobError::UnknownJobKind(name) => join("Unknown job type: ", name.as_str()),
            JobError::Execution(detail) => detail.clone(),
        }
    }
}

/// The outcome that is recorded for a dispatch result: success, or the
/// message of the failure.
pub open spec fn recorded_outcome(result: Result<(), JobError>) -> Result<(), Seq<char>> {
    match result {
        Ok(_) => Ok(()),
        Err(e) => Err(e.message_text()),
    }
}

/// The failure of a dispatch under a name that no kind is registered for.
pub fn unknown_job_kind(task_name: &str) -> (error: JobError)
    ensures
        error matches JobError::UnknownJobKind(name) && name@ == task_name@,
        error.message_text() == "Unknown job type: "@ + task_name@,
{
    JobError::UnknownJobKind(task_name.to_owned())
}

/// Runs the record's job: resolves `task_name` to its kind and hands the
/// kind and the payload to `handler`, which decodes the payload and runs the
/// routine. An unregistered name fails with `UnknownJobKind` and the handler
/// is not called.
pub fn execute_job_by_name<F>(task_name: &str, payload: &str, handler: &F) -> (result: Result<
    (),
    JobError,
>) where F: Fn(JobKind, &str) -> Result<(), JobError>
    requires
        forall|kind: JobKind| call_requires(*handler, (kind, payload)),
    ensures
        match JobKind::of_name(task_name@) {
            Some(kind) => call_ensures(*handler, (kind, payload), result),
            None => result matches Err(JobError::UnknownJobKind(name)) && name@ == task_name@,
        },
{
    match JobKind::from_name(task_name) {
        Some(kind) => handler(kind, payload),
        None => Err(unknown_job_kind(task_name)),
    }
}

} // verus!
