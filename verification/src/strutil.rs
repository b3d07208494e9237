//! Verified character-level string predicates: equality, prefix, substring
//! search, and blank-line detection. These back the argument scanner, the
//! toolchain version check, and the diagnostic noise filter.

use vstd::prelude::*;
use vstd::string::StrSliceExecFns;

verus! {

/// `p` is a prefix of `s`.
pub open spec fn is_prefix_of(p: Seq<char>, s: Seq<char>) -> bool {
    p.len() <= s.len() && s.subrange(0, p.len() as int) == p
}

/// `p` occurs in `s` as a contiguous run of characters.
pub open spec fn contains_seq(s: Seq<char>, p: Seq<char>) -> bool {
    exists|i: int| 0 <= i && i + p.len() <= s.len() && #[trigger] s.subrange(i, i + p.len()) == p
}

/// A whitespace character: the Unicode White_Space set, the characters that
/// trimming a line removes.
pub open spec fn is_space_char(c: char) -> bool {
    ||| c == ' '
    ||| c == '\t'
    ||| c == '\n'
    ||| c == '\r'
    ||| c == '\u{b}'
    ||| c == '\u{c}'
    ||| c == '\u{85}'
    ||| c == '\u{a0}'
    ||| c == '\u{1680}'
    ||| c == '\u{2000}'
    ||| c == '\u{2001}'
    ||| c == '\u{2002}'
    ||| c == '\u{2003}'
    ||| c == '\u{2004}'
    ||| c == '\u{2005}'
    ||| c == '\u{2006}'
    ||| c == '\u{2007}'
    ||| c == '\u{2008}'
    ||| c == '\u{2009}'
    ||| c == '\u{200a}'
    ||| c == '\u{2028}'
    ||| c == '\u{2029}'
    ||| c == '\u{202f}'
    ||| c == '\u{205f}'
    ||| c == '\u{3000}'
}

/// Every character of `s` is whitespace (so the empty line is blank).
pub open spec fn is_blank_seq(s: Seq<char>) -> bool {
    forall|i: int| 0 <= i < s.len() ==> is_space_char(s[i])
}

/// The character sequences of a sequence of strings, element by element.
pub open spec fn views_of(s: Seq<String>) -> Seq<Seq<char>> {
    Seq::new(s.len(), |i: int| s[i]@)
}

pub broadcast proof fn lemma_views_of_len(s: Seq<String>)
    ensures
        (#[trigger] views_of(s)).len() == s.len(),
{
}

pub broadcast proof fn lemma_views_of_index(s: Seq<String>, i: int)
    requires
        0 <= i < s.len(),
    ensures
        #[trigger] views_of(s)[i] == s[i]@,
{
}

pub broadcast proof fn lemma_views_of_push(s: Seq<String>, x: String)
    ensures
        #[trigger] views_of(s.push(x)) == views_of(s).push(x@),
{
    assert(views_of(s.push(x)) =~= views_of(s).push(x@));
}

/// A vector of strings views deeply to exactly the element views.
pub broadcast proof fn lemma_deep_view_views_of(v: Vec<String>)
    ensures
        #[trigger] v.deep_view() == views_of(v@),
{
    assert(v.deep_view() =~= views_of(v@));
}

pub broadcast group group_views {
    lemma_views_of_len,
    lemma_views_of_index,
    lemma_views_of_push,
    lemma_deep_view_views_of,
}

/// Character-for-character equality of two string slices.
pub fn str_eq(a: &str, b: &str) -> (r: bool)
    ensures
        r == (a@ == b@),
{
    let alen: usize = a.unicode_len();
    let blen: usize = b.unicode_len();
    if alen != blen {
        return false;
    }
    let mut i: usize = 0;
    while i < alen
        invariant
            alen == a@.len(),
            blen == b@.len(),
            alen == blen,
            i <= alen,
            forall|j: int| 0 <= j < i ==> a@[j] == b@[j],
        decreases alen - i,
    {
        if a.get_char(i) != b.get_char(i) {
            return false;
        }
        i = i + 1;
    }
    proof {
        assert(a@ =~= b@);
    }
    true
}

/// Whether `s` starts with `p`.
pub fn str_starts_with(s: &str, p: &str) -> (r: bool)
    ensures
        r == is_prefix_of(p@, s@),
{
    let slen: usize = s.unicode_len();
    let plen: usize = p.unicode_len();
    if plen > slen {
        return false;
    }
    let mut i: usize = 0;
    while i < plen
        invariant
            slen == s@.len(),
            plen == p@.len(),
            plen <= slen,
            i <= plen,
            forall|j: int| 0 <= j < i ==> s@[j] == p@[j],
        decreases plen - i,
    {
        if s.get_char(i) != p.get_char(i) {
            proof {
                assert(s@.subrange(0, p@.len() as int)[i as int] == s@[i as int]);
            }
            return false;
        }
        i = i + 1;
    }
    proof {
        assert(s@.subrange(0, p@.len() as int) =~= p@);
    }
    true
}

/// Whether `p` matches `s` at position `at`.
fn match_at(s: &str, p: &str, at: usize) -> (r: bool)
    requires
        at + p@.len() <= s@.len(),
    ensures
        r == (s@.subrange(at as int, at + p@.len()) == p@),
{
    let slen: usize = s.unicode_len();
    let plen: usize = p.unicode_len();
    let mut j: usize = 0;
    while j < plen
        invariant
            slen == s@.len(),
            plen == p@.len(),
            at + plen <= slen,
            j <= plen,
            forall|k: int| 0 <= k < j ==> s@[at + k] == p@[k],
        decreases plen - j,
    {
        if s.get_char(at + j) != p.get_char(j) {
            proof {
                assert(s@.subrange(at as int, at + p@.len())[j as int] == s@[at + j]);
            }
            return false;
        }
        j = j + 1;
    }
    proof {
        assert(s@.subrange(at as int, at + p@.len()) =~= p@);
    }
    true
}

/// Whether `p` occurs anywhere in `s`.
pub fn str_contains(s: &str, p: &str) -> (r: bool)
    ensures
        r == contains_seq(s@, p@),
{
    let slen: usize = s.unicode_len();
    let plen: usize = p.unicode_len();
    if plen == 0 {
        proof {
            assert(s@.subrange(0, 0 + p@.len() as int) =~= p@);
            assert(contains_seq(s@, p@));
        }
        return true;
    }
    if plen > slen {
        return false;
    }
    let end: usize = slen - plen;
    let mut i: usize = 0;
    while i <= end
        invariant
            slen == s@.len(),
            plen == p@.len(),
            1 <= plen <= slen,
            end == slen - plen,
            i <= end + 1,
            forall|j: int| 0 <= j < i ==> #[trigger] s@.subrange(j, j + p@.len()) != p@,
        decreases end + 1 - i,
    {
        if match_at(s, p, i) {
            assert(contains_seq(s@, p@));
            return true;
        }
        i = i + 1;
    }
    false
}

fn is_space(c: char) -> (r: bool)
    ensures
        r == is_space_char(c),
{
    match c {
        ' ' | '\t' | '\n' | '\r' | '\u{b}' | '\u{c}' => true,
        '\u{85}' | '\u{a0}' | '\u{1680}' => true,
        '\u{2000}' | '\u{2001}' | '\u{2002}' | '\u{2003}' | '\u{2004}' | '\u{2005}'
            | '\u{2006}' | '\u{2007}' | '\u{2008}' | '\u{2009}' | '\u{200a}' => true,
        '\u{2028}' | '\u{2029}' | '\u{202f}' | '\u{205f}' | '\u{3000}' => true,
        _ => false,
    }
}

/// Whether every character of `s` is whitespace.
pub fn str_is_blank(s: &str) -> (r: bool)
    ensures
        r == is_blank_seq(s@),
{
    let slen: usize = s.unicode_len();
    let mut i: usize = 0;
    while i < slen
        invariant
            slen == s@.len(),
            i <= slen,
            forall|j: int| 0 <= j < i ==> is_space_char(s@[j]),
        decreases slen - i,
    {
        if !is_space(s.get_char(i)) {
            return false;
        }
        i = i + 1;
    }
    true
}

} // verus!
