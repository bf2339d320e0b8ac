//! Verified helpers for scanning and comparing character strings.
//!
//! URIs are modelled as their `Seq<char>` views; the spec functions here
//! define first-occurrence searches, and the exec functions compute them.

use vstd::prelude::*;

verus! {

/// Index of the first occurrence of `c` in `s` at or after `i`, if any.
pub open spec fn find_char_from(s: Seq<char>, c: char, i: int) -> Option<int>
    decreases s.len() - i,
{
    if i < 0 || i >= s.len() {
        None
    } else if s[i] == c {
        Some(i)
    } else {
        find_char_from(s, c, i + 1)
    }
}

/// Any index with the first-occurrence property is the one `find_char_from`
/// returns.
pub proof fn lemma_find_char_from_is(s: Seq<char>, c: char, i: int, r: Option<int>)
    requires
        0 <= i <= s.len(),
        match r {
            Some(j) => i <= j < s.len() && s[j] == c && (forall|k: int| i <= k < j ==> s[k] != c),
            None => forall|k: int| i <= k < s.len() ==> s[k] != c,
        },
    ensures
        find_char_from(s, c, i) == r,
    decreases s.len() - i,
{
    if i < s.len() && s[i] != c {
        lemma_find_char_from_is(s, c, i + 1, r);
    }
}

/// Whether the scheme separator `://` sits at index `i` of `s`.
pub open spec fn scheme_sep_at(s: Seq<char>, i: int) -> bool {
    &&& 0 <= i
    &&& i + 3 <= s.len()
    &&& s[i] == ':'
    &&& s[i + 1] == '/'
    &&& s[i + 2] == '/'
}

/// Index of the first occurrence of `://` in `s` at or after `i`, if any.
pub open spec fn find_scheme_sep_from(s: Seq<char>, i: int) -> Option<int>
    decreases s.len() - i,
{
    if i < 0 || i + 3 > s.len() {
        None
    } else if scheme_sep_at(s, i) {
        Some(i)
    } else {
        find_scheme_sep_from(s, i + 1)
    }
}

/// Any index with the first-occurrence property is the one
/// `find_scheme_sep_from` returns.
pub proof fn lemma_find_scheme_sep_from_is(s: Seq<char>, i: int, r: Option<int>)
    requires
        0 <= i,
        match r {
            Some(j) => i <= j && scheme_sep_at(s, j) && (forall|k: int|
                i <= k < j ==> !scheme_sep_at(s, k)),
            None => forall|k: int| i <= k ==> !scheme_sep_at(s, k),
        },
    ensures
        find_scheme_sep_from(s, i) == r,
    decreases s.len() - i,
{
    if i + 3 <= s.len() && !scheme_sep_at(s, i) {
        lemma_find_scheme_sep_from_is(s, i + 1, r);
    }
}

/// Compute the first occurrence of `c` in `s`.
pub fn find_char(s: &str, c: char) -> (r: Option<usize>)
    ensures
        match r {
            Some(j) => j < s@.len() && find_char_from(s@, c, 0) == Some(j as int),
            None => find_char_from(s@, c, 0) is None,
        },
{
    let n = s.unicode_len();
    let mut j: usize = 0;
    while j < n
        invariant
            j <= n,
            n == s@.len(),
            forall|k: int| 0 <= k < j ==> s@[k] != c,
        decreases n - j,
    {
        if s.get_char(j) == c {
            proof {
                lemma_find_char_from_is(s@, c, 0, Some(j as int));
            }
            return Some(j);
        }
        j = j + 1;
    }
    proof {
        lemma_find_char_from_is(s@, c, 0, None);
    }
    None
}

/// Compute the first occurrence of `://` in `s`.
pub fn find_scheme_sep(s: &str) -> (r: Option<usize>)
    ensures
        match r {
            Some(j) => j + 3 <= s@.len() && find_scheme_sep_from(s@, 0) == Some(j as int),
            None => find_scheme_sep_from(s@, 0) is None,
        },
{
    let n = s.unicode_len();
    if n < 3 {
        proof {
            lemma_find_scheme_sep_from_is(s@, 0, None);
        }
        return None;
    }
    let mut j: usize = 0;
    while j <= n - 3
        invariant
            j <= n - 2,
            n == s@.len(),
            n >= 3,
            forall|k: int| 0 <= k < j ==> !scheme_sep_at(s@, k),
        decreases n - j,
    {
        if s.get_char(j) == ':' && s.get_char(j + 1) == '/' && s.get_char(j + 2) == '/' {
            proof {
                lemma_find_scheme_sep_from_is(s@, 0, Some(j as int));
            }
            return Some(j);
        }
        proof {
            assert(!scheme_sep_at(s@, j as int));
        }
        j = j + 1;
    }
    proof {
        assert(forall|k: int| 0 <= k ==> k + 3 > s@.len() ==> !scheme_sep_at(s@, k));
        lemma_find_scheme_sep_from_is(s@, 0, None);
    }
    None
}

/// Compare two strings character by character.
pub fn str_eq(a: &str, b: &str) -> (r: bool)
    ensures
        r == (a@ == b@),
{
    let an = a.unicode_len();
    let bn = b.unicode_len();
    if an != bn {
        return false;
    }
    let mut j: usize = 0;
    while j < an
        invariant
            j <= an,
            an == a@.len(),
            an == b@.len(),
            forall|k: int| 0 <= k < j ==> a@[k] == b@[k],
        decreases an - j,
    {
        if a.get_char(j) != b.get_char(j) {
            return false;
        }
        j = j + 1;
    }
    proof {
        assert(a@ =~= b@);
    }
    true
}

} // verus!
