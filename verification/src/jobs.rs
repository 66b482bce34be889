//! Background jobs: records, the store with its atomic claim, the enqueuer,
//! dispatch by job-kind name and the worker pool.

pub mod exclusivity;
pub mod hashing;
pub mod queue;
pub mod record;
pub mod registry;
pub mod store;
pub mod worker;

pub use record::{JobRecord, JobRecordView, NewJob, NewJobView, Timestamp};
pub use store::{JobStore, StoreError};
