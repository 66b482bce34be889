//! Site settings that change how requests are handled.

use vstd::prelude::*;
use crate::text::str_equal;

verus! {

/// Key of the setting that makes reading require authentication.
pub const REQUIRE_AUTH_FOR_READS: &'static str = "require_auth_for_reads";

/// Whether reading requires authentication, given the stored value of the
/// `require_auth_for_reads` setting: only the value "true" switches it on. A
/// setting that is absent or could not be read leaves it off.
pub fn require_auth_for_reads(stored: Option<&str>) -> (required: bool)
    ensures
        required == (stored matches Some(value) && value@ == "true"@),
{
    match stored {
        Some(value) => str_equal(value, "true"),
        None => false,
    }
}

} // verus!
