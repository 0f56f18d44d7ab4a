//! Request text as it comes over the boundary.

use vstd::prelude::*;
use vstd::string::*;

verus! {

/// The request in `s`: a request ends with the closing brace of its JSON
/// object, and text that ends otherwise carries one stray character behind
/// it.
pub open spec fn request_text(s: Seq<char>) -> Seq<char> {
    if s.len() > 0 && s.last() != '}' {
        s.drop_last()
    } else {
        s
    }
}

/// Drops the last character of `text` unless it is a closing brace.
pub fn trim_stray_end(text: &str) -> (r: &str)
    ensures
        r@ == request_text(text@),
{
    let n = text.unicode_len();
    if n == 0 {
        return text;
    }
    if text.get_char(n - 1) == '}' {
        text
    } else {
        text.substring_char(0, n - 1)
    }
}

} // verus!
