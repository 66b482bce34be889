//! The wall clock.

use vstd::prelude::*;
use crate::jobs::record::Timestamp;

verus! {

/// The current time in microseconds since the Unix epoch.
///
/// Calls `chrono::Utc::now`, which reads the system clock, and converts the
/// instant with `DateTime::timestamp_micros`. Nothing is promised of the
/// value: two calls may return any two numbers. `Utc::now` gives up with a
/// panic on a machine whose clock is set before 1970.
#[verifier::external_body]
pub(crate) fn now() -> Timestamp {
    chrono::Utc::now().timestamp_micros()
}

} // verus!
