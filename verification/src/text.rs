//! Character-level string operations: equality, prefix test, prefix removal.
//!
//! Object paths arrive as plain strings, and the coordinator classifies them
//! lexically, so these few verified primitives carry all of its string work.

use vstd::prelude::*;
use vstd::string::StrSliceExecFns;

verus! {

/// `p` is a prefix of `s`.
pub open spec fn seq_starts_with(s: Seq<char>, p: Seq<char>) -> bool {
    p.len() <= s.len() && forall|k: int| 0 <= k < p.len() ==> s[k] == p[k]
}

/// Character-for-character equality of two string slices.
pub fn str_eq(a: &str, b: &str) -> (r: bool)
    ensures
        r == (a@ == b@),
{
    let a_len = a.unicode_len();
    let b_len = b.unicode_len();
    if a_len != b_len {
        return false;
    }
    let mut i: usize = 0;
    while i < a_len
        invariant
            a_len == a@.len(),
            a_len == b@.len(),
            i <= a_len,
            forall|k: int| 0 <= k < i ==> a@[k] == b@[k],
        decreases a_len - i,
    {
        if a.get_char(i) != b.get_char(i) {
            assert(a@[i as int] != b@[i as int]);
            return false;
        }
        i += 1;
    }
    proof {
        assert(a@ =~= b@);
    }
    true
}

/// Whether `s` starts with the prefix `p`.
pub fn str_starts_with(s: &str, p: &str) -> (r: bool)
    ensures
        r == seq_starts_with(s@, p@),
{
    let s_len = s.unicode_len();
    let p_len = p.unicode_len();
    if p_len > s_len {
        return false;
    }
    let mut i: usize = 0;
    while i < p_len
        invariant
            p_len <= s_len,
            s_len == s@.len(),
            p_len == p@.len(),
            i <= p_len,
            forall|k: int| 0 <= k < i ==> s@[k] == p@[k],
        decreases p_len - i,
    {
        if s.get_char(i) != p.get_char(i) {
            assert(s@[i as int] != p@[i as int]);
            return false;
        }
        i += 1;
    }
    true
}

/// The remainder of `s` after its prefix `p`.
pub fn strip_prefix<'a>(s: &'a str, p: &str) -> (r: &'a str)
    requires
        seq_starts_with(s@, p@),
    ensures
        r@ == s@.subrange(p@.len() as int, s@.len() as int),
{
    let s_len = s.unicode_len();
    let p_len = p.unicode_len();
    s.substring_char(p_len, s_len)
}

} // verus!
