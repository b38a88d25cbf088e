//! Character-level string predicates and helpers.
//!
//! Paths handed back by the synchronization tool are ordinary strings;
//! the classifier and the cache key extraction need substring, suffix
//! and equality tests over them, stated over `Seq<char>` views.

use vstd::prelude::*;

verus! {

/// `t` occurs in `s` starting at index `i`.
pub open spec fn matches_at(s: Seq<char>, t: Seq<char>, i: int) -> bool {
    0 <= i && i + t.len() <= s.len() && s.subrange(i, i + t.len() as int) == t
}

/// `t` occurs somewhere in `s`.
pub open spec fn contains_seq(s: Seq<char>, t: Seq<char>) -> bool {
    exists|i: int| matches_at(s, t, i)
}

/// `s` ends with `t`.
pub open spec fn ends_with_seq(s: Seq<char>, t: Seq<char>) -> bool {
    t.len() <= s.len() && s.subrange(s.len() - t.len(), s.len() as int) == t
}

/// The views of a sequence of strings.
pub open spec fn seq_views(s: Seq<String>) -> Seq<Seq<char>> {
    s.map_values(|x: String| x@)
}

/// Character-for-character equality of two string slices.
pub fn str_eq(a: &str, b: &str) -> (r: bool)
    ensures
        r == (a@ == b@),
{
    let alen = a.unicode_len();
    let blen = b.unicode_len();
    if alen != blen {
        return false;
    }
    let mut i: usize = 0;
    while i < alen
        invariant
            alen == a@.len(),
            blen == b@.len(),
            alen == blen,
            i <= alen,
            forall|j: int| 0 <= j < i ==> a@[j] == b@[j],
        decreases alen - i,
    {
        if a.get_char(i) != b.get_char(i) {
            return false;
        }
        i = i + 1;
    }
    proof {
        assert(a@ =~= b@);
    }
    true
}

/// `t` occurs in `s` at position `i`.
fn occurs_at(s: &str, t: &str, i: usize) -> (r: bool)
    requires
        i + t@.len() <= s@.len(),
        s@.len() <= usize::MAX,
    ensures
        r == matches_at(s@, t@, i as int),
{
    let tlen = t.unicode_len();
    let mut j: usize = 0;
    while j < tlen
        invariant
            tlen == t@.len(),
            i + tlen <= s@.len(),
            s@.len() <= usize::MAX,
            j <= tlen,
            forall|k: int| 0 <= k < j ==> s@[i + k] == t@[k],
        decreases tlen - j,
    {
        if s.get_char(i + j) != t.get_char(j) {
            proof {
                assert(s@.subrange(i as int, i + t@.len()) != t@) by {
                    assert(s@.subrange(i as int, i + t@.len())[j as int] == s@[i + j]);
                }
            }
            return false;
        }
        j = j + 1;
    }
    proof {
        assert(s@.subrange(i as int, i + t@.len()) =~= t@);
    }
    true
}

/// `t` occurs somewhere in `s`.
pub fn contains_str(s: &str, t: &str) -> (r: bool)
    ensures
        r == contains_seq(s@, t@),
{
    let slen = s.unicode_len();
    let tlen = t.unicode_len();
    if tlen > slen {
        proof {
            assert(forall|i: int| !matches_at(s@, t@, i));
        }
        return false;
    }
    if tlen == 0 {
        proof {
            assert(s@.subrange(0, 0) =~= t@);
            assert(matches_at(s@, t@, 0));
        }
        return true;
    }
    let mut i: usize = 0;
    while i <= slen - tlen
        invariant
            slen == s@.len(),
            tlen == t@.len(),
            1 <= tlen <= slen,
            i <= slen - tlen + 1,
            forall|k: int| 0 <= k < i ==> !matches_at(s@, t@, k),
        decreases slen - tlen - i + 1,
    {
        if occurs_at(s, t, i) {
            return true;
        }
        i = i + 1;
    }
    proof {
        assert(forall|k: int| !matches_at(s@, t@, k)) by {
            assert(forall|k: int| k >= i ==> !matches_at(s@, t@, k));
        }
    }
    false
}

/// `s` ends with `t`.
pub fn ends_with_str(s: &str, t: &str) -> (r: bool)
    ensures
        r == ends_with_seq(s@, t@),
{
    let slen = s.unicode_len();
    let tlen = t.unicode_len();
    if tlen > slen {
        return false;
    }
    let r = occurs_at(s, t, slen - tlen);
    proof {
        assert(matches_at(s@, t@, slen - tlen) == ends_with_seq(s@, t@));
    }
    r
}

/// `s` starts with `t`.
pub fn starts_with_str(s: &str, t: &str) -> (r: bool)
    ensures
        r == (t@.len() <= s@.len() && s@.subrange(0, t@.len() as int) == t@),
{
    let slen = s.unicode_len();
    let tlen = t.unicode_len();
    if tlen > slen {
        return false;
    }
    occurs_at(s, t, 0)
}

/// The characters after the final `/` of `s`; all of `s` when it holds
/// no `/`; empty when `s` ends in `/`.
pub open spec fn basename(s: Seq<char>) -> Seq<char>
    decreases s.len(),
{
    if s.len() == 0 {
        s
    } else if s.last() == '/' {
        Seq::empty()
    } else {
        basename(s.drop_last()).push(s.last())
    }
}

proof fn lemma_basename_suffix(s: Seq<char>, cut: int)
    requires
        0 <= cut <= s.len(),
        forall|j: int| cut <= j < s.len() ==> s[j] != '/',
        cut == 0 || s[cut - 1] == '/',
    ensures
        basename(s) == s.subrange(cut, s.len() as int),
    decreases s.len(),
{
    if s.len() == 0 {
        assert(basename(s) =~= s.subrange(cut, s.len() as int));
    } else if cut == s.len() {
        assert(s.last() == '/');
        assert(basename(s) =~= s.subrange(cut, s.len() as int));
    } else {
        assert(s.last() != '/');
        lemma_basename_suffix(s.drop_last(), cut);
        assert(s.drop_last().subrange(cut, s.len() - 1) =~= s.subrange(cut, s.len() - 1));
        assert(basename(s) =~= s.subrange(cut, s.len() as int));
    }
}

/// The final path component of `s`, as `basename` gives it.
pub fn path_basename(s: &str) -> (r: String)
    ensures
        r@ == basename(s@),
{
    let len = s.unicode_len();
    let mut cut: usize = 0;
    let mut j: usize = 0;
    while j < len
        invariant
            len == s@.len(),
            j <= len,
            cut <= j,
            forall|k: int| cut <= k < j ==> s@[k] != '/',
            cut == 0 || s@[cut - 1] == '/',
        decreases len - j,
    {
        if s.get_char(j) == '/' {
            cut = j + 1;
        }
        j = j + 1;
    }
    let tail = s.substring_char(cut, len);
    proof {
        lemma_basename_suffix(s@, cut as int);
    }
    String::from_str(tail)
}

} // verus!
