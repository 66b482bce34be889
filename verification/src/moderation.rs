//! Trust levels and who counts as a moderator.

use vstd::prelude::*;

verus! {

pub const TRUST_LEVEL_NEW_USER: i32 = 0;

pub const TRUST_LEVEL_BASIC: i32 = 1;

pub const TRUST_LEVEL_MEMBER: i32 = 2;

pub const TRUST_LEVEL_REGULAR: i32 = 3;

pub const TRUST_LEVEL_LEADER: i32 = 4;

/// Whether a trust level alone makes its holder a moderator: leaders are.
pub fn is_moderator(trust_level: i32) -> (allowed: bool)
    ensures
        allowed == (trust_level >= TRUST_LEVEL_LEADER),
{
    trust_level >= TRUST_LEVEL_LEADER
}

/// Whether a user is suspended, given how many of the user's suspensions
/// have not run out yet.
pub fn is_user_suspended(open_suspensions: i64) -> (suspended: bool)
    ensures
        suspended == (open_suspensions > 0),
{
    open_suspensions > 0
}

} // verus!
