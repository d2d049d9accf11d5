//! Verified text helpers: equality, substring search, and splitting on the
//! last occurrence of a character.  All of them work character by character
//! so that their contracts speak directly over the string views.

use vstd::prelude::*;

verus! {

/// `sub` occurs in `s` starting at position `at`.
pub open spec fn spec_matches_at(s: Seq<char>, sub: Seq<char>, at: int) -> bool {
    &&& 0 <= at
    &&& at + sub.len() <= s.len()
    &&& s.subrange(at, at + sub.len() as int) == sub
}

/// `sub` occurs somewhere in `s`.
pub open spec fn spec_contains(s: Seq<char>, sub: Seq<char>) -> bool {
    exists|at: int| spec_matches_at(s, sub, at)
}

/// Character-for-character string equality.
pub fn str_eq(a: &str, b: &str) -> (r: bool)
    ensures
        r == (a@ == b@),
{
    let la = a.unicode_len();
    let lb = b.unicode_len();
    if la != lb {
        return false;
    }
    let mut i: usize = 0;
    while i < la
        invariant
            i <= la,
            la == a@.len(),
            la == b@.len(),
            forall|j: int| 0 <= j < i ==> a@[j] == b@[j],
        decreases la - i,
    {
        if a.get_char(i) != b.get_char(i) {
            return false;
        }
        i = i + 1;
    }
    proof {
        assert(a@ =~= b@);
    }
    true
}

/// Whether `needle` occurs in `hay` starting at `at`.
fn matches_at(hay: &str, needle: &str, at: usize) -> (r: bool)
    requires
        at + needle@.len() <= hay@.len(),
    ensures
        r == spec_matches_at(hay@, needle@, at as int),
{
    let hl = hay.unicode_len();
    let nl = needle.unicode_len();
    let mut j: usize = 0;
    while j < nl
        invariant
            j <= nl,
            nl == needle@.len(),
            hl == hay@.len(),
            at + nl <= hl,
            forall|m: int| 0 <= m < j ==> hay@[at + m] == needle@[m],
        decreases nl - j,
    {
        if hay.get_char(at + j) != needle.get_char(j) {
            proof {
                assert(hay@.subrange(at as int, at + needle@.len() as int)[j as int]
                    == hay@[at + j]);
            }
            return false;
        }
        j = j + 1;
    }
    proof {
        assert(hay@.subrange(at as int, at + needle@.len() as int) =~= needle@);
    }
    true
}

/// Substring search.
pub fn str_contains(hay: &str, needle: &str) -> (r: bool)
    ensures
        r == spec_contains(hay@, needle@),
{
    let hl = hay.unicode_len();
    let nl = needle.unicode_len();
    if nl > hl {
        return false;
    }
    if nl == 0 {
        proof {
            assert(hay@.subrange(0, 0) =~= needle@);
            assert(spec_matches_at(hay@, needle@, 0));
        }
        return true;
    }
    let mut at: usize = 0;
    while at <= hl - nl
        invariant
            1 <= nl <= hl,
            hl == hay@.len(),
            nl == needle@.len(),
            at <= hl - nl + 1,
            forall|k: int| 0 <= k < at ==> !spec_matches_at(hay@, needle@, k),
        decreases hl - nl - at + 1,
    {
        if matches_at(hay, needle, at) {
            return true;
        }
        at = at + 1;
    }
    false
}

/// Everything after the last occurrence of `c`; the whole of `s` when `c`
/// does not occur.
pub open spec fn spec_suffix_after_last(s: Seq<char>, c: char) -> Seq<char>
    decreases s.len(),
{
    if s.len() == 0 {
        s
    } else if s[s.len() - 1] == c {
        Seq::empty()
    } else {
        spec_suffix_after_last(s.subrange(0, s.len() - 1), c) + seq![s[s.len() - 1]]
    }
}

proof fn lemma_suffix_after_last_at(s: Seq<char>, c: char, i: int)
    requires
        0 <= i < s.len(),
        s[i] == c,
        forall|j: int| i < j < s.len() ==> s[j] != c,
    ensures
        spec_suffix_after_last(s, c) == s.subrange(i + 1, s.len() as int),
    decreases s.len(),
{
    if i == s.len() - 1 {
        assert(spec_suffix_after_last(s, c) =~= s.subrange(i + 1, s.len() as int));
    } else {
        let shorter = s.subrange(0, s.len() - 1);
        lemma_suffix_after_last_at(shorter, c, i);
        assert(spec_suffix_after_last(s, c) =~= s.subrange(i + 1, s.len() as int));
    }
}

proof fn lemma_suffix_after_last_absent(s: Seq<char>, c: char)
    requires
        forall|j: int| 0 <= j < s.len() ==> s[j] != c,
    ensures
        spec_suffix_after_last(s, c) == s,
    decreases s.len(),
{
    if s.len() > 0 {
        let shorter = s.subrange(0, s.len() - 1);
        lemma_suffix_after_last_absent(shorter, c);
        assert(spec_suffix_after_last(s, c) =~= s);
    }
}

/// The substring after the last occurrence of `c`, or all of `s` when `c`
/// does not occur in it.
pub fn suffix_after_last<'a>(s: &'a str, c: char) -> (r: &'a str)
    ensures
        r@ == spec_suffix_after_last(s@, c),
{
    let n = s.unicode_len();
    let mut i: usize = n;
    while i > 0
        invariant
            i <= n,
            n == s@.len(),
            forall|j: int| i <= j < n ==> s@[j] != c,
        decreases i,
    {
        if s.get_char(i - 1) == c {
            let r = s.substring_char(i, n);
            proof {
                lemma_suffix_after_last_at(s@, c, i - 1);
            }
            return r;
        }
        i = i - 1;
    }
    proof {
        lemma_suffix_after_last_absent(s@, c);
    }
    s
}

} // verus!
