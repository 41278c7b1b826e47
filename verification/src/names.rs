//! Validation of workload resource names.
//!
//! The cluster accepts resource names made of lowercase ASCII letters,
//! digits and `-`, at most 253 characters long and never empty.

use vstd::prelude::*;

verus! {

/// Longest resource name the cluster accepts.
pub const MAX_NAME_LEN: usize = 253;

/// A character allowed in a resource name: a lowercase ASCII letter,
/// an ASCII digit, or `-`.
pub open spec fn is_name_char(c: char) -> bool {
    ('a' as int <= c as int && c as int <= 'z' as int) || ('0' as int <= c as int && c as int
        <= '9' as int) || c == '-'
}

/// A valid resource name: non-empty, at most [`MAX_NAME_LEN`] characters,
/// every character allowed by [`is_name_char`].
pub open spec fn valid_name(s: Seq<char>) -> bool {
    &&& 0 < s.len() <= MAX_NAME_LEN
    &&& forall|i: int| 0 <= i < s.len() ==> is_name_char(s[i])
}

/// Decides [`valid_name`] for a string.
pub fn is_valid_name(s: &str) -> (b: bool)
    ensures
        b == valid_name(s@),
{
    let n = s.unicode_len();
    if n == 0 || n > MAX_NAME_LEN {
        return false;
    }
    let mut i: usize = 0;
    while i < n
        invariant
            n == s@.len(),
            0 < n <= MAX_NAME_LEN,
            i <= n,
            forall|j: int| 0 <= j < i ==> is_name_char(s@[j]),
        decreases n - i,
    {
        let c = s.get_char(i);
        let v = c as u32;
        let lower = 'a' as u32 <= v && v <= 'z' as u32;
        let digit = '0' as u32 <= v && v <= '9' as u32;
        if !(lower || digit || c == '-') {
            return false;
        }
        i += 1;
    }
    true
}

} // verus!
