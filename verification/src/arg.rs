//! Telling a numeric suggestion id apart from a comment URL argument.

use vstd::prelude::*;
use vstd::string::StrSliceExecFns;

verus! {

/// `s` is one or more ASCII decimal digits: a numeric comment id.
pub open spec fn is_numeric_id(s: Seq<char>) -> bool {
    s.len() > 0 && forall|i: int| 0 <= i < s.len() ==> 48 <= (#[trigger] s[i]) as u32 <= 57
}

/// Check whether `s` is a numeric comment id.
pub fn is_suggestion_id(s: &str) -> (r: bool)
    ensures
        r == is_numeric_id(s@),
{
    let n = s.unicode_len();
    if n == 0 {
        return false;
    }
    let mut i: usize = 0;
    while i < n
        invariant
            n == s@.len(),
            i <= n,
            forall|j: int| 0 <= j < i ==> 48 <= (#[trigger] s@[j]) as u32 <= 57,
        decreases n - i,
    {
        let c = s.get_char(i) as u32;
        if c < 48 || c > 57 {
            return false;
        }
        i = i + 1;
    }
    true
}

} // verus!
