//! How a code is laid out for reading.

use vstd::prelude::*;
use vstd::string::{StrSliceExecFns, StringExecFns};

verus! {

/// A code of 6 or of 8 characters in two halves with a space between them;
/// any other text as it is.
pub open spec fn grouped(code: Seq<char>) -> Seq<char> {
    if code.len() == 6 || code.len() == 8 {
        let half = (code.len() / 2) as int;
        code.take(half).push(' ') + code.skip(half)
    } else {
        code
    }
}

/// Lays a code out for reading: "123456" becomes "123 456", and a code of 8
/// digits is split 4 and 4.
pub fn group_digits(code: &str) -> (shown: String)
    ensures
        shown@ == grouped(code@),
{
    let len: usize = code.unicode_len();
    if len == 6 || len == 8 {
        let half: usize = len / 2;
        let first = code.substring_char(0, half);
        let second = code.substring_char(half, len);
        proof {
            reveal_strlit(" ");
            assert(" "@ == seq![' ']);
        }
        first.to_owned().concat(" ").concat(second)
    } else {
        code.to_owned()
    }
}

} // verus!
