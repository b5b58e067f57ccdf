//! Small verified string predicates used by the release logic.

use vstd::prelude::*;

verus! {

/// Whether `s` ends in `suffix`.
pub open spec fn ends_with(s: Seq<char>, suffix: Seq<char>) -> bool {
    suffix.len() <= s.len() && s.skip(s.len() - suffix.len()) == suffix
}

/// Character-for-character string equality.
pub fn str_eq(a: &str, b: &str) -> (r: bool)
    ensures
        r == (a@ == b@),
{
    let a_len = a.unicode_len();
    let b_len = b.unicode_len();
    if a_len != b_len {
        return false;
    }
    let mut i: usize = 0;
    while i < a_len
        invariant
            a_len == a@.len(),
            a_len == b@.len(),
            i <= a_len,
            forall|j: int| 0 <= j < i ==> a@[j] == b@[j],
        decreases a_len - i,
    {
        if a.get_char(i) != b.get_char(i) {
            return false;
        }
        i = i + 1;
    }
    proof {
        assert(a@ =~= b@);
    }
    true
}

/// Whether the string `s` ends in `suffix`.
pub fn str_ends_with(s: &str, suffix: &str) -> (r: bool)
    ensures
        r == ends_with(s@, suffix@),
{
    let s_len = s.unicode_len();
    let suf_len = suffix.unicode_len();
    if suf_len > s_len {
        return false;
    }
    let off = s_len - suf_len;
    let mut k: usize = 0;
    while k < suf_len
        invariant
            s_len == s@.len(),
            suf_len == suffix@.len(),
            suf_len <= s_len,
            off == s_len - suf_len,
            k <= suf_len,
            forall|j: int| 0 <= j < k ==> s@[off + j] == suffix@[j],
        decreases suf_len - k,
    {
        if s.get_char(off + k) != suffix.get_char(k) {
            proof {
                assert(s@.skip(off as int)[k as int] != suffix@[k as int]);
            }
            return false;
        }
        k = k + 1;
    }
    proof {
        assert(s@.skip(off as int) =~= suffix@);
    }
    true
}

} // verus!
