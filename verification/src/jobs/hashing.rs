//! The traceability hash of a payload: the MD5 digest of its bytes, written
//! as 32 lower-case hexadecimal digits.
//!
//! The hash identifies what was enqueued; it is not a uniqueness key. Two
//! enqueues of the same payload give two records with the same hash.

use vstd::prelude::*;
use vstd::string::*;
use vstd::utf8::encode_utf8;

verus! {

/// The MD5 digest of `data`, as the `md5` crate computes it.
pub uninterp spec fn md5_digest(data: Seq<u8>) -> Seq<u8>;

/// Calls `md5::compute` and returns the 16 bytes of the digest.
///
/// Assumed, not proved: the bytes returned are a function of the input bytes
/// alone, named `md5_digest`. Nothing else is claimed of them.
#[verifier::external_body]
fn md5_compute(data: &[u8]) -> (digest: [u8; 16])
    ensures
        digest@ == md5_digest(data@),
{
    md5::compute(data).0
}

/// The lower-case hexadecimal digit of a value below 16.
pub open spec fn hex_digit(value: int) -> char {
    if value == 0 {
        '0'
    } else if value == 1 {
        '1'
    } else if value == 2 {
        '2'
    } else if value == 3 {
        '3'
    } else if value == 4 {
        '4'
    } else if value == 5 {
        '5'
    } else if value == 6 {
        '6'
    } else if value == 7 {
        '7'
    } else if value == 8 {
        '8'
    } else if value == 9 {
        '9'
    } else if value == 10 {
        'a'
    } else if value == 11 {
        'b'
    } else if value == 12 {
        'c'
    } else if value == 13 {
        'd'
    } else if value == 14 {
        'e'
    } else {
        'f'
    }
}

/// Each byte written as two lower-case hexadecimal digits, high digit first.
pub open spec fn hex_text(bytes: Seq<u8>) -> Seq<char>
    decreases bytes.len(),
{
    if bytes.len() == 0 {
        Seq::empty()
    } else {
        hex_text(bytes.drop_last()) + seq![
            hex_digit(bytes.last() as int / 16),
            hex_digit(bytes.last() as int % 16),
        ]
    }
}

/// The traceability hash of a payload.
pub open spec fn content_hash_text(payload: Seq<char>) -> Seq<char> {
    hex_text(md5_digest(encode_utf8(payload)))
}

/// A hexadecimal text has two digits per byte.
pub proof fn lemma_hex_text_len(bytes: Seq<u8>)
    ensures
        hex_text(bytes).len() == 2 * bytes.len(),
    decreases bytes.len(),
{
    if bytes.len() > 0 {
        lemma_hex_text_len(bytes.drop_last());
    }
}

fn hex_digit_str(value: u8) -> (digit: &'static str)
    requires
        value < 16,
    ensures
        digit@ == seq![hex_digit(value as int)],
{
    proof {
        reveal_strlit("0");
        reveal_strlit("1");
        reveal_strlit("2");
        reveal_strlit("3");
        reveal_strlit("4");
        reveal_strlit("5");
        reveal_strlit("6");
        reveal_strlit("7");
        reveal_strlit("8");
        reveal_strlit("9");
        reveal_strlit("a");
        reveal_strlit("b");
        reveal_strlit("c");
        reveal_strlit("d");
        reveal_strlit("e");
        reveal_strlit("f");
    }
    let digit = if value == 0 {
        "0"
    } else if value == 1 {
        "1"
    } else if value == 2 {
        "2"
    } else if value == 3 {
        "3"
    } else if value == 4 {
        "4"
    } else if value == 5 {
        "5"
    } else if value == 6 {
        "6"
    } else if value == 7 {
        "7"
    } else if value == 8 {
        "8"
    } else if value == 9 {
        "9"
    } else if value == 10 {
        "a"
    } else if value == 11 {
        "b"
    } else if value == 12 {
        "c"
    } else if value == 13 {
        "d"
    } else if value == 14 {
        "e"
    } else {
        "f"
    };
    assert(digit@ =~= seq![hex_digit(value as int)]);
    digit
}

/// Writes bytes as lower-case hexadecimal digits.
pub fn to_hex(bytes: &[u8]) -> (text: String)
    ensures
        text@ == hex_text(bytes@),
{
    let mut text = String::new();
    let mut k: usize = 0;
    while k < bytes.len()
        invariant
            k <= bytes.len(),
            text@ == hex_text(bytes@.take(k as int)),
        decreases bytes.len() - k,
    {
        let byte = bytes[k];
        text.append(hex_digit_str(byte / 16));
        text.append(hex_digit_str(byte % 16));
        proof {
            let done = bytes@.take(k + 1);
            assert(done.drop_last() =~= bytes@.take(k as int));
            assert(done.last() == byte);
            assert(text@ =~= hex_text(done));
        }
        k += 1;
    }
    assert(bytes@.take(k as int) =~= bytes@);
    text
}

/// Computes the traceability hash of a payload.
pub fn content_hash(payload: &str) -> (hash: String)
    ensures
        hash@ == content_hash_text(payload@),
        hash@.len() == 32,
{
    let digest = md5_compute(payload.as_bytes());
    proof {
        lemma_hex_text_len(digest@);
    }
    to_hex(digest.as_slice())
}

} // verus!
