//! Small operations on strings, with contracts over their character
//! sequences.

use vstd::prelude::*;
use vstd::string::*;

verus! {

/// Whether two strings hold the same characters.
pub fn str_equal(a: &str, b: &str) -> (same: bool)
    ensures
        same == (a@ == b@),
{
    a.to_owned() == b.to_owned()
}

/// `a` followed by `b`.
pub fn join(a: &str, b: &str) -> (joined: String)
    ensures
        joined@ == a@ + b@,
{
    a.to_owned().concat(b)
}

/// `text` without the leading `prefix`, if it starts with it.
pub fn strip_prefix<'a>(text: &'a str, prefix: &str) -> (rest: Option<&'a str>)
    ensures
        match rest {
            Some(r) => prefix@.is_prefix_of(text@) && r@ == text@.skip(prefix@.len() as int),
            None => !prefix@.is_prefix_of(text@),
        },
{
    let prefix_len = prefix.unicode_len();
    let text_len = text.unicode_len();
    if text_len < prefix_len {
        return None;
    }
    let head = text.substring_char(0, prefix_len);
    if str_equal(head, prefix) {
        let rest = text.substring_char(prefix_len, text_len);
        assert(rest@ =~= text@.skip(prefix@.len() as int));
        assert(prefix@ =~= text@.subrange(0, prefix@.len() as int));
        Some(rest)
    } else {
        assert(!prefix@.is_prefix_of(text@)) by {
            if prefix@.is_prefix_of(text@) {
                assert(head@ =~= prefix@);
            }
        }
        None
    }
}

} // verus!
