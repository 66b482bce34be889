use std::sync::atomic::{AtomicUsize, Ordering};

use discourse_rs::jobs::queue::JobQueue;
use discourse_rs::jobs::record::{JobRecord, NewJob};
use discourse_rs::jobs::registry::{execute_job_by_name, unknown_job_kind, Job, JobError, JobKind};
use discourse_rs::jobs::store::JobStore;
use discourse_rs::jobs::worker::{
    worker_start, worker_step, WorkerAction, WorkerEvent, WorkerPool, WorkerState,
    POLL_INTERVAL_SECS,
};

const NOW: i64 = 1_700_000_000_000_000;
const HOUR: i64 = 3_600_000_000;

struct Welcome(&'static str);

impl Job for Welcome {
    fn job_name(&self) -> &'static str {
        "welcome_email"
    }

    fn execute(&self) -> Result<(), String> {
        Ok(())
    }

    fn to_json(&self) -> Result<String, String> {
        Ok(self.0.to_string())
    }
}

fn manual(name: &str, payload: &str, scheduled_at: i64) -> NewJob {
    NewJob {
        task_name: name.to_string(),
        task_hash: "0".repeat(32),
        payload: payload.to_string(),
        timeout_msecs: 30000,
        max_retries: 3,
        scheduled_at,
    }
}

fn record(id: u128) -> JobRecord {
    JobRecord {
        id,
        task_name: "process_topic".to_string(),
        task_hash: "0".repeat(32),
        payload: "{}".to_string(),
        timeout_msecs: 30000,
        max_retries: 3,
        retries: 0,
        created_at: NOW,
        scheduled_at: NOW,
        running_at: Some(NOW),
        done_at: None,
        error: None,
    }
}

/// Succeeds on "ok", fails to decode "garbage", fails in the routine on
/// anything else.
fn handler(kind: JobKind, payload: &str) -> Result<(), JobError> {
    match (kind, payload) {
        (_, "ok") => Ok(()),
        (_, "garbage") => Err(JobError::Serialization("expected value at line 1".to_string())),
        (JobKind::WelcomeEmail, _) => Err(JobError::Execution("mailbox full".to_string())),
        (JobKind::ProcessTopic, _) => Err(JobError::Execution("topic locked".to_string())),
    }
}

fn always_ok(_kind: JobKind, _payload: &str) -> Result<(), JobError> {
    Ok(())
}

#[test]
fn kinds_and_their_names() {
    assert_eq!(JobKind::WelcomeEmail.name(), "welcome_email");
    assert_eq!(JobKind::ProcessTopic.name(), "process_topic");
    assert_eq!(JobKind::from_name("welcome_email"), Some(JobKind::WelcomeEmail));
    assert_eq!(JobKind::from_name("process_topic"), Some(JobKind::ProcessTopic));
    assert_eq!(JobKind::from_name("Welcome_Email"), None);
    assert_eq!(JobKind::from_name("welcome_email "), None);
    assert_eq!(JobKind::from_name(""), None);
    assert_eq!(JobKind::from_name(JobKind::WelcomeEmail.name()), Some(JobKind::WelcomeEmail));
    assert_eq!(JobKind::from_name(JobKind::ProcessTopic.name()), Some(JobKind::ProcessTopic));
}

#[test]
fn job_error_messages() {
    assert_eq!(
        JobError::Serialization("missing field `user_id`".to_string()).message(),
        "Failed to deserialize job: missing field `user_id`"
    );
    assert_eq!(
        JobError::UnknownJobKind("send_digest".to_string()).message(),
        "Unknown job type: send_digest"
    );
    assert_eq!(JobError::Execution("mailbox full".to_string()).message(), "mailbox full");
    assert_eq!(unknown_job_kind("x").message(), "Unknown job type: x");
}

#[test]
fn dispatch_of_a_registered_name_returns_what_the_handler_returns() {
    assert!(execute_job_by_name("welcome_email", "ok", &handler).is_ok());
    assert!(matches!(
        execute_job_by_name("welcome_email", "{}", &handler),
        Err(JobError::Execution(ref m)) if m == "mailbox full"
    ));
    assert!(matches!(
        execute_job_by_name("process_topic", "{}", &handler),
        Err(JobError::Execution(ref m)) if m == "topic locked"
    ));
    assert!(matches!(
        execute_job_by_name("process_topic", "garbage", &handler),
        Err(JobError::Serialization(ref m)) if m == "expected value at line 1"
    ));
}

#[test]
fn dispatch_of_an_unregistered_name_fails_without_calling_the_handler() {
    let calls = AtomicUsize::new(0);
    let counting = |_kind: JobKind, _payload: &str| -> Result<(), JobError> {
        calls.fetch_add(1, Ordering::SeqCst);
        Ok(())
    };
    let result = execute_job_by_name("send_digest", "ok", &counting);
    assert!(matches!(result, Err(JobError::UnknownJobKind(ref n)) if n == "send_digest"));
    assert_eq!(result.unwrap_err().message(), "Unknown job type: send_digest");
    assert_eq!(calls.load(Ordering::SeqCst), 0);
    assert!(execute_job_by_name("welcome_email", "ok", &counting).is_ok());
    assert_eq!(calls.load(Ordering::SeqCst), 1);
}

#[test]
fn record_outcome_persists_the_message_of_a_failure() {
    let mut store = JobStore::new();
    let a = store.insert(manual("welcome_email", "{}", NOW), NOW).unwrap();
    let b = store.insert(manual("welcome_email", "{}", NOW), NOW).unwrap();
    let c = store.insert(manual("welcome_email", "{}", NOW), NOW).unwrap();
    for _ in 0..3 {
        store.claim_one(NOW).unwrap();
    }
    WorkerPool::record_outcome(&mut store, a, Ok(()), NOW + 1);
    WorkerPool::record_outcome(
        &mut store,
        b,
        Err(JobError::Serialization("eof".to_string())),
        NOW + 2,
    );
    WorkerPool::record_outcome(&mut store, c, Err(JobError::Execution("boom".to_string())), NOW + 3);
    assert_eq!(store.get(a).unwrap().done_at, Some(NOW + 1));
    assert_eq!(store.get(a).unwrap().error, None);
    assert_eq!(store.get(b).unwrap().done_at, Some(NOW + 2));
    assert_eq!(store.get(b).unwrap().error.as_deref(), Some("Failed to deserialize job: eof"));
    assert_eq!(store.get(c).unwrap().done_at, Some(NOW + 3));
    assert_eq!(store.get(c).unwrap().error.as_deref(), Some("boom"));
}

#[test]
fn a_cycle_on_an_empty_store_executes_nothing() {
    let mut store = JobStore::new();
    assert!(!WorkerPool::claim_and_execute_job(&mut store, &handler));
    assert_eq!(store.len(), 0);
}

#[test]
fn a_cycle_runs_one_record_to_its_terminal_state() {
    let mut store = JobStore::new();
    let queue = JobQueue::new();
    queue.enqueue_at(&mut store, &Welcome("ok"), NOW).unwrap();
    queue.enqueue_at(&mut store, &Welcome("{}"), NOW).unwrap();
    assert!(WorkerPool::claim_and_execute_job(&mut store, &handler));
    let first = store.get(1).unwrap();
    assert!(first.is_terminal());
    assert!(first.running_at.is_some());
    assert!(first.running_at <= first.done_at);
    assert_eq!(first.error, None);
    assert!(store.get(2).unwrap().is_pending(NOW));
    assert!(WorkerPool::claim_and_execute_job(&mut store, &handler));
    let second = store.get(2).unwrap();
    assert!(second.is_terminal());
    assert_eq!(second.error.as_deref(), Some("mailbox full"));
    assert!(!WorkerPool::claim_and_execute_job(&mut store, &handler));
}

#[test]
fn an_unregistered_task_name_fails_the_record_and_the_worker_goes_on() {
    let mut store = JobStore::new();
    let stray = store.insert(manual("send_digest", "ok", NOW), NOW).unwrap();
    let next = store.insert(manual("process_topic", "ok", NOW + 1), NOW).unwrap();
    assert!(WorkerPool::claim_and_execute_job(&mut store, &handler));
    let failed = store.get(stray).unwrap();
    assert!(failed.running_at.is_some());
    assert!(failed.is_terminal());
    assert_eq!(failed.error.as_deref(), Some("Unknown job type: send_digest"));
    assert!(!store.get(next).unwrap().is_terminal());
    assert!(WorkerPool::claim_and_execute_job(&mut store, &handler));
    let done = store.get(next).unwrap();
    assert!(done.is_terminal());
    assert_eq!(done.error, None);
    assert!(!WorkerPool::claim_and_execute_job(&mut store, &handler));
}

#[test]
fn a_payload_that_does_not_decode_fails_the_record() {
    let mut store = JobStore::new();
    let id = store.insert(manual("welcome_email", "garbage", NOW), NOW).unwrap();
    assert!(WorkerPool::claim_and_execute_job(&mut store, &handler));
    let r = store.get(id).unwrap();
    assert!(r.is_terminal());
    assert_eq!(
        r.error.as_deref(),
        Some("Failed to deserialize job: expected value at line 1")
    );
}

#[test]
fn two_due_records_are_processed_in_order_and_the_future_one_waits() {
    let mut store = JobStore::new();
    let queue = JobQueue::new();
    queue.enqueue_at(&mut store, &Welcome("first"), NOW).unwrap();
    queue.enqueue_at(&mut store, &Welcome("second"), NOW).unwrap();
    queue.enqueue_at(&mut store, &Welcome("third"), NOW + HOUR).unwrap();

    let mut processed = Vec::new();
    let mut at = NOW;
    loop {
        at += 1;
        let claimed = match store.claim_one(at) {
            Some(r) => r,
            None => break,
        };
        processed.push(claimed.payload.clone());
        let result = execute_job_by_name(&claimed.task_name, &claimed.payload, &always_ok);
        WorkerPool::record_outcome(&mut store, claimed.id, result, at);
    }
    assert_eq!(processed, vec!["first", "second"]);
    assert!(store.get(1).unwrap().is_terminal());
    assert!(store.get(2).unwrap().is_terminal());

    // Before its time the third record is not handed out.
    assert!(store.claim_one(NOW + HOUR - 1).is_none());
    let third = store.get(3).unwrap();
    assert_eq!(third.running_at, None);
    assert_eq!(third.done_at, None);

    // From its time on it is.
    let claimed = store.claim_one(NOW + HOUR).unwrap();
    assert_eq!(claimed.id, 3);
    assert_eq!(claimed.payload, "third");
}

#[test]
fn five_workers_drain_a_hundred_records_exactly_once() {
    let mut store = JobStore::new();
    for k in 0..100 {
        // Every third record fails in its routine.
        let payload = if k % 3 == 0 { "{}" } else { "ok" };
        store.insert(manual("welcome_email", payload, NOW + k), NOW).unwrap();
    }
    let runs = AtomicUsize::new(0);
    let counting = |kind: JobKind, payload: &str| -> Result<(), JobError> {
        runs.fetch_add(1, Ordering::SeqCst);
        handler(kind, payload)
    };
    let pool = WorkerPool::new(5);
    assert_eq!(pool.worker_count(), 5);
    let mut executed = 0;
    let mut rounds = 0;
    loop {
        let mut any = false;
        for _worker in 0..pool.worker_count() {
            if WorkerPool::claim_and_execute_job(&mut store, &counting) {
                executed += 1;
                any = true;
            }
        }
        rounds += 1;
        if !any {
            break;
        }
    }
    assert_eq!(rounds, 21);
    assert_eq!(executed, 100);
    assert_eq!(runs.load(Ordering::SeqCst), 100);
    let mut successes = 0;
    let mut failures = 0;
    for id in 1..=100u128 {
        let r = store.get(id).unwrap();
        assert!(r.is_terminal());
        assert!(r.running_at.is_some());
        match r.error.as_deref() {
            None => successes += 1,
            Some("mailbox full") => failures += 1,
            Some(other) => panic!("unexpected error: {}", other),
        }
    }
    assert_eq!(successes, 66);
    assert_eq!(failures, 34);
    assert_eq!(successes + failures, 100);
    assert!(!WorkerPool::claim_and_execute_job(&mut store, &counting));
    assert_eq!(runs.load(Ordering::SeqCst), 100);
}

#[test]
fn a_worker_starts_asleep() {
    let (state, action) = worker_start();
    assert_eq!(state, WorkerState::Idle);
    assert!(matches!(action, WorkerAction::Sleep { seconds } if seconds == 5));
    assert_eq!(POLL_INTERVAL_SECS, 5);
}

#[test]
fn a_worker_that_wakes_up_claims() {
    let (state, action) = worker_step(WorkerState::Idle, WorkerEvent::Woke);
    assert_eq!(state, WorkerState::Polling);
    assert!(matches!(action, WorkerAction::Claim));
}

#[test]
fn an_empty_claim_sends_the_worker_back_to_sleep() {
    let (state, action) = worker_step(WorkerState::Polling, WorkerEvent::NothingPending);
    assert_eq!(state, WorkerState::Idle);
    assert!(matches!(action, WorkerAction::Sleep { seconds: 5 }));
}

#[test]
fn a_claimed_record_is_executed_and_then_completed() {
    let (state, action) = worker_step(WorkerState::Polling, WorkerEvent::Claimed(record(17)));
    assert_eq!(state, WorkerState::Executing { id: 17 });
    match action {
        WorkerAction::Execute(r) => {
            assert_eq!(r.id, 17);
            assert_eq!(r.task_name, "process_topic");
            assert_eq!(r.payload, "{}");
            assert_eq!(r.running_at, Some(NOW));
        }
        other => panic!("unexpected action: {:?}", other),
    }

    let (state, action) = worker_step(state, WorkerEvent::Finished(Ok(())));
    assert_eq!(state, WorkerState::Idle);
    assert!(matches!(action, WorkerAction::Complete { id: 17, outcome: Ok(()) }));

    let (state, action) = worker_step(state, WorkerEvent::Completed);
    assert_eq!(state, WorkerState::Idle);
    assert!(matches!(action, WorkerAction::Sleep { seconds: 5 }));
}

#[test]
fn a_failed_dispatch_is_completed_with_its_message() {
    let failure = Err(JobError::UnknownJobKind("send_digest".to_string()));
    let (state, action) = worker_step(WorkerState::Executing { id: 4 }, WorkerEvent::Finished(failure));
    assert_eq!(state, WorkerState::Idle);
    match action {
        WorkerAction::Complete { id, outcome } => {
            assert_eq!(id, 4);
            assert_eq!(outcome, Err("Unknown job type: send_digest".to_string()));
        }
        other => panic!("unexpected action: {:?}", other),
    }
}

#[test]
fn an_unreachable_store_never_stops_the_worker() {
    for state in [WorkerState::Idle, WorkerState::Polling, WorkerState::Executing { id: 1 }] {
        let (next, action) =
            worker_step(state, WorkerEvent::StoreUnavailable("connection refused".to_string()));
        assert_eq!(next, WorkerState::Idle);
        assert!(matches!(action, WorkerAction::Sleep { seconds: 5 }));
        let (next, action) = worker_step(next, WorkerEvent::Woke);
        assert_eq!(next, WorkerState::Polling);
        assert!(matches!(action, WorkerAction::Claim));
    }
}

#[test]
fn an_event_that_does_not_fit_the_state_sends_the_worker_to_sleep() {
    let (state, action) = worker_step(WorkerState::Idle, WorkerEvent::Claimed(record(1)));
    assert_eq!(state, WorkerState::Idle);
    assert!(matches!(action, WorkerAction::Sleep { seconds: 5 }));
    let (state, action) = worker_step(WorkerState::Polling, WorkerEvent::Woke);
    assert_eq!(state, WorkerState::Idle);
    assert!(matches!(action, WorkerAction::Sleep { seconds: 5 }));
    let (state, action) = worker_step(WorkerState::Executing { id: 3 }, WorkerEvent::NothingPending);
    assert_eq!(state, WorkerState::Idle);
    assert!(matches!(action, WorkerAction::Sleep { seconds: 5 }));
    let (state, action) = worker_step(WorkerState::Polling, WorkerEvent::Finished(Ok(())));
    assert_eq!(state, WorkerState::Idle);
    assert!(matches!(action, WorkerAction::Sleep { seconds: 5 }));
}
