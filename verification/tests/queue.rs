use discourse_rs::jobs::hashing::{content_hash, to_hex};
use discourse_rs::jobs::queue::{
    EnqueueError, JobQueue, DEFAULT_MAX_RETRIES, DEFAULT_TIMEOUT_MSECS,
};
use discourse_rs::jobs::record::JobRecord;
use discourse_rs::jobs::registry::Job;
use discourse_rs::jobs::store::{JobStore, StoreError};

const NOW: i64 = 1_700_000_000_000_000;

struct Greeting {
    payload: &'static str,
}

impl Job for Greeting {
    fn job_name(&self) -> &'static str {
        "welcome_email"
    }

    fn execute(&self) -> Result<(), String> {
        Ok(())
    }

    fn to_json(&self) -> Result<String, String> {
        Ok(self.payload.to_string())
    }
}

struct Unserializable;

impl Job for Unserializable {
    fn job_name(&self) -> &'static str {
        "process_topic"
    }

    fn execute(&self) -> Result<(), String> {
        Ok(())
    }

    fn to_json(&self) -> Result<String, String> {
        Err("key must be a string".to_string())
    }
}

fn full_store() -> JobStore {
    let last = JobRecord {
        id: u128::MAX - 1,
        task_name: "welcome_email".to_string(),
        task_hash: String::new(),
        payload: String::new(),
        timeout_msecs: 30000,
        max_retries: 3,
        retries: 0,
        created_at: NOW,
        scheduled_at: NOW,
        running_at: None,
        done_at: None,
        error: None,
    };
    JobStore::from_records(vec![last]).unwrap()
}

#[test]
fn hex_of_bytes() {
    assert_eq!(to_hex(&[]), "");
    assert_eq!(to_hex(&[0x00]), "00");
    assert_eq!(to_hex(&[0x0f, 0xf0]), "0ff0");
    assert_eq!(to_hex(&[0xde, 0xad, 0xbe, 0xef]), "deadbeef");
    assert_eq!(to_hex(&[0x01, 0x23, 0x45, 0x67, 0x89, 0xab, 0xcd, 0xef]), "0123456789abcdef");
    assert_eq!(to_hex(&[255, 16, 9, 10]), "ff10090a");
}

#[test]
fn content_hash_is_the_md5_of_the_payload_in_hex() {
    assert_eq!(content_hash(""), "d41d8cd98f00b204e9800998ecf8427e");
    assert_eq!(content_hash("a"), "0cc175b9c0f1b6a831c399e269772661");
    assert_eq!(content_hash("abc"), "900150983cd24fb0d6963f7d28e17f72");
    assert_eq!(content_hash("hello"), "5d41402abc4b2a76b9719d911017c592");
    assert_eq!(
        content_hash("The quick brown fox jumps over the lazy dog"),
        "9e107d9d372bb6826bd81d3542a419d6"
    );
}

#[test]
fn content_hash_has_32_lower_case_hex_digits() {
    let hash = content_hash("{\"user_id\":1}");
    assert_eq!(hash.len(), 32);
    assert!(hash.chars().all(|c| c.is_ascii_digit() || ('a'..='f').contains(&c)));
}

#[test]
fn content_hash_covers_the_bytes_of_non_ascii_text() {
    // MD5 of the two bytes c3 a9.
    assert_eq!(content_hash("\u{e9}"), to_hex(&md5::compute([0xc3u8, 0xa9u8]).0));
    assert_ne!(content_hash("\u{e9}"), content_hash("e"));
}

#[test]
fn prepare_fills_in_the_defaults() {
    let job = JobQueue::new().prepare("welcome_email", "hello".to_string(), NOW);
    assert_eq!(job.task_name, "welcome_email");
    assert_eq!(job.task_hash, "5d41402abc4b2a76b9719d911017c592");
    assert_eq!(job.payload, "hello");
    assert_eq!(job.timeout_msecs, 30000);
    assert_eq!(job.max_retries, 3);
    assert_eq!(job.scheduled_at, NOW);
    assert_eq!(DEFAULT_TIMEOUT_MSECS, 30000);
    assert_eq!(DEFAULT_MAX_RETRIES, 3);
}

#[test]
fn enqueue_at_inserts_a_pending_record_and_returns_its_hash() {
    let mut store = JobStore::new();
    let queue = JobQueue::new();
    let hash = queue.enqueue_at(&mut store, &Greeting { payload: "hello" }, NOW).unwrap();
    assert_eq!(hash, "5d41402abc4b2a76b9719d911017c592");
    assert_eq!(store.len(), 1);
    let r = store.get(1).unwrap();
    assert_eq!(r.task_name, "welcome_email");
    assert_eq!(r.task_hash, hash);
    assert_eq!(r.payload, "hello");
    assert_eq!(r.timeout_msecs, 30000);
    assert_eq!(r.max_retries, 3);
    assert_eq!(r.retries, 0);
    assert_eq!(r.created_at, NOW);
    assert_eq!(r.scheduled_at, NOW);
    assert_eq!(r.running_at, None);
    assert_eq!(r.done_at, None);
    assert_eq!(r.error, None);
    assert!(r.is_pending(NOW));
}

#[test]
fn enqueue_of_the_same_payload_twice_gives_two_records() {
    let mut store = JobStore::new();
    let queue = JobQueue::new();
    let first = queue.enqueue_at(&mut store, &Greeting { payload: "same" }, NOW).unwrap();
    let second = queue.enqueue_at(&mut store, &Greeting { payload: "same" }, NOW + 1).unwrap();
    assert_eq!(first, second);
    assert_eq!(store.len(), 2);
    assert_eq!(store.get(1).unwrap().task_hash, first);
    assert_eq!(store.get(2).unwrap().task_hash, first);
    assert_eq!(store.get(2).unwrap().scheduled_at, NOW + 1);
}

#[test]
fn enqueue_reports_a_serialization_failure_and_inserts_nothing() {
    let mut store = JobStore::new();
    let queue = JobQueue::new();
    let result = queue.enqueue_at(&mut store, &Unserializable, NOW);
    match result {
        Err(EnqueueError::SerializationFailed(detail)) => {
            assert_eq!(detail, "key must be a string")
        }
        other => panic!("unexpected result: {:?}", other),
    }
    assert_eq!(store.len(), 0);
}

#[test]
fn enqueue_reports_a_store_that_takes_no_more_records() {
    let mut store = full_store();
    let queue = JobQueue::new();
    let result = queue.enqueue_at(&mut store, &Greeting { payload: "hello" }, NOW);
    assert!(matches!(result, Err(EnqueueError::EnqueueFailed(StoreError::Exhausted))));
    assert_eq!(store.len(), 1);
}

#[test]
fn enqueue_serialized_follows_what_serializing_returned() {
    let mut store = JobStore::new();
    let queue = JobQueue::new();
    let ok = queue.enqueue_serialized(&mut store, "process_topic", Ok("abc".to_string()), NOW);
    assert_eq!(ok.unwrap(), "900150983cd24fb0d6963f7d28e17f72");
    assert_eq!(store.get(1).unwrap().task_name, "process_topic");
    assert_eq!(store.get(1).unwrap().payload, "abc");
    let err = queue.enqueue_serialized(&mut store, "process_topic", Err("bad".to_string()), NOW);
    assert!(matches!(err, Err(EnqueueError::SerializationFailed(ref d)) if d == "bad"));
    assert_eq!(store.len(), 1);
}

#[test]
fn enqueue_with_the_clock_schedules_the_record_now() {
    let mut store = JobStore::new();
    let queue = JobQueue::new();
    let before = chrono::Utc::now().timestamp_micros();
    let hash = queue.enqueue(&mut store, &Greeting { payload: "hello" }).unwrap();
    let after = chrono::Utc::now().timestamp_micros();
    assert_eq!(hash, "5d41402abc4b2a76b9719d911017c592");
    let r = store.get(1).unwrap();
    assert!(before <= r.scheduled_at && r.scheduled_at <= after);
    assert_eq!(r.created_at, r.scheduled_at);
    assert!(store.claim_one(after).is_some());
}

#[test]
fn enqueue_error_messages() {
    assert_eq!(EnqueueError::SerializationFailed("bad input".to_string()).message(), "bad input");
    assert_eq!(
        EnqueueError::EnqueueFailed(StoreError::Exhausted).message(),
        "job store is exhausted"
    );
}
