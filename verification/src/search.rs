//! Limits of the search endpoint.

use vstd::prelude::*;

verus! {

/// Number of results returned when the request names no limit.
pub const DEFAULT_LIMIT: i64 = 20;

/// Largest number of results a request can ask for.
pub const MAX_LIMIT: i64 = 100;

/// The number of results to return for a requested limit: the request,
/// brought into `1..=MAX_LIMIT`.
pub fn effective_limit(requested: i64) -> (limit: i64)
    ensures
        1 <= limit <= MAX_LIMIT,
        limit == if requested < 1 {
            1
        } else if requested > MAX_LIMIT {
            MAX_LIMIT
        } else {
            requested
        },
{
    if requested < 1 {
        1
    } else if requested > MAX_LIMIT {
        MAX_LIMIT
    } else {
        requested
    }
}

} // verus!
