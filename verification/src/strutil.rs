//! Verified text helpers shared by the protocol components.
//!
//! Everything here is ordinary character-by-character work on `&str` views:
//! equality, prefix tests, finding a character or a substring. The protocol's
//! parsing (references, evidence blobs) is built on these.

use vstd::prelude::*;
use vstd::string::*;

verus! {

/// True when `pat` occurs in `s` starting exactly at `i`.
pub open spec fn matches_at(s: Seq<char>, i: int, pat: Seq<char>) -> bool {
    0 <= i && i + pat.len() <= s.len() && s.subrange(i, i + pat.len() as int) == pat
}

/// True when `p` is a prefix of `s`.
pub open spec fn is_prefix_of(p: Seq<char>, s: Seq<char>) -> bool {
    matches_at(s, 0, p)
}

/// Position of the first occurrence of `c` in `s` at or after `from`.
pub open spec fn spec_find_char(s: Seq<char>, from: int, c: char) -> Option<int>
    decreases s.len() - from when 0 <= from <= s.len()
{
    if from >= s.len() {
        None
    } else if s[from] == c {
        Some(from)
    } else {
        spec_find_char(s, from + 1, c)
    }
}

/// Position of the first occurrence of `pat` in `s` at or after `from`.
pub open spec fn spec_find_sub(s: Seq<char>, from: int, pat: Seq<char>) -> Option<int>
    decreases s.len() - from when 0 <= from <= s.len()
{
    if from + pat.len() > s.len() {
        None
    } else if pat.len() == 0 || matches_at(s, from, pat) {
        Some(from)
    } else {
        spec_find_sub(s, from + 1, pat)
    }
}

/// What `spec_find_char` returns is the first occurrence: it lies in range,
/// holds `c`, and nothing before it does; `None` means `c` does not occur.
pub proof fn lemma_find_char_props(s: Seq<char>, from: int, c: char)
    requires
        0 <= from <= s.len(),
    ensures
        match spec_find_char(s, from, c) {
            Some(i) => from <= i < s.len() && s[i] == c && (forall|j: int|
                from <= j < i ==> s[j] != c),
            None => forall|j: int| from <= j < s.len() ==> s[j] != c,
        },
    decreases s.len() - from,
{
    if from < s.len() && s[from] != c {
        lemma_find_char_props(s, from + 1, c);
    }
}

/// A position that holds `c`, with no earlier occurrence, is what
/// `spec_find_char` returns.
pub proof fn lemma_find_char_at(s: Seq<char>, from: int, c: char, k: int)
    requires
        0 <= from <= k < s.len(),
        s[k] == c,
        forall|j: int| from <= j < k ==> s[j] != c,
    ensures
        spec_find_char(s, from, c) == Some(k),
    decreases k - from,
{
    if from < k {
        lemma_find_char_at(s, from + 1, c, k);
    }
}

/// Same for `spec_find_sub`: an occurrence of `pat` with none earlier is the
/// one found.
pub proof fn lemma_find_sub_at(s: Seq<char>, from: int, pat: Seq<char>, k: int)
    requires
        0 <= from <= k,
        matches_at(s, k, pat),
        forall|j: int| from <= j < k ==> !matches_at(s, j, pat),
    ensures
        spec_find_sub(s, from, pat) == Some(k),
    decreases k - from,
{
    if from < k {
        if pat.len() == 0 {
            assert(s.subrange(from, from) =~= pat);
            assert(matches_at(s, from, pat));
        }
        assert(!matches_at(s, from, pat));
        lemma_find_sub_at(s, from + 1, pat, k);
        assert(spec_find_sub(s, from, pat) == spec_find_sub(s, from + 1, pat));
    } else {
        assert(spec_find_sub(s, from, pat) == Some(k));
    }
}

/// What `spec_find_sub` finds is an occurrence, and the first one.
pub proof fn lemma_find_sub_props(s: Seq<char>, from: int, pat: Seq<char>)
    requires
        0 <= from <= s.len(),
    ensures
        match spec_find_sub(s, from, pat) {
            Some(i) => from <= i && matches_at(s, i, pat) && (forall|j: int|
                from <= j < i ==> !matches_at(s, j, pat)),
            None => forall|j: int| from <= j ==> !matches_at(s, j, pat),
        },
    decreases s.len() - from,
{
    if from + pat.len() > s.len() {
        assert forall|j: int| from <= j implies !matches_at(s, j, pat) by {}
    } else if pat.len() == 0 {
        assert(s.subrange(from, from) =~= pat);
    } else if !matches_at(s, from, pat) {
        lemma_find_sub_props(s, from + 1, pat);
    }
}

/// True when `pat` occurs at `i` of `s`, decided character by character.
pub fn str_matches_at(s: &str, i: usize, pat: &str) -> (b: bool)
    ensures
        b == matches_at(s@, i as int, pat@),
{
    let n = s.unicode_len();
    let m = pat.unicode_len();
    if m > n || i > n - m {
        return false;
    }
    let mut k: usize = 0;
    while k < m
        invariant
            i + m <= n,
            n == s@.len(),
            m == pat@.len(),
            0 <= k <= m,
            forall|j: int| 0 <= j < k ==> s@[i + j] == pat@[j],
        decreases m - k,
    {
        if s.get_char(i + k) != pat.get_char(k) {
            proof {
                assert(!matches_at(s@, i as int, pat@)) by {
                    if matches_at(s@, i as int, pat@) {
                        assert(s@.subrange(i as int, i + m as int)[k as int] == pat@[k as int]);
                    }
                }
            }
            return false;
        }
        k += 1;
    }
    proof {
        assert(s@.subrange(i as int, i + m as int) =~= pat@);
    }
    true
}

/// Character-for-character equality of two text slices.
pub fn str_eq(a: &str, b: &str) -> (r: bool)
    ensures
        r == (a@ == b@),
{
    let n = a.unicode_len();
    let m = b.unicode_len();
    if n != m {
        return false;
    }
    let r = str_matches_at(a, 0, b);
    proof {
        assert(a@.subrange(0, n as int) =~= a@);
    }
    r
}

/// Prefix test: does `s` begin with `prefix`?
pub fn str_has_prefix(s: &str, prefix: &str) -> (b: bool)
    ensures
        b == is_prefix_of(prefix@, s@),
{
    str_matches_at(s, 0, prefix)
}

/// First occurrence of `c` in `s` at or after `from`.
pub fn find_char_from(s: &str, from: usize, c: char) -> (r: Option<usize>)
    requires
        from <= s@.len(),
    ensures
        match r {
            Some(i) => spec_find_char(s@, from as int, c) == Some(i as int),
            None => spec_find_char(s@, from as int, c) is None,
        },
{
    let n = s.unicode_len();
    let mut i: usize = from;
    while i < n
        invariant
            from <= i <= n,
            n == s@.len(),
            forall|j: int| from <= j < i ==> s@[j] != c,
        decreases n - i,
    {
        if s.get_char(i) == c {
            proof {
                lemma_find_char_at(s@, from as int, c, i as int);
            }
            return Some(i);
        }
        i += 1;
    }
    proof {
        lemma_find_char_props(s@, from as int, c);
    }
    None
}

/// First occurrence of `pat` in `s`.
pub fn find_sub(s: &str, pat: &str) -> (r: Option<usize>)
    ensures
        match r {
            Some(i) => spec_find_sub(s@, 0, pat@) == Some(i as int),
            None => spec_find_sub(s@, 0, pat@) is None,
        },
{
    let n = s.unicode_len();
    let mut i: usize = 0;
    while i < n
        invariant
            0 <= i <= n,
            n == s@.len(),
            forall|j: int| 0 <= j < i ==> !matches_at(s@, j, pat@),
        decreases n - i,
    {
        if str_matches_at(s, i, pat) {
            proof {
                lemma_find_sub_at(s@, 0, pat@, i as int);
            }
            return Some(i);
        }
        i += 1;
    }
    if str_matches_at(s, n, pat) {
        proof {
            lemma_find_sub_at(s@, 0, pat@, n as int);
        }
        return Some(n);
    }
    proof {
        lemma_find_sub_props(s@, 0, pat@);
    }
    None
}

/// A fresh copy of a byte vector.
pub fn copy_bytes(a: &Vec<u8>) -> (r: Vec<u8>)
    ensures
        r@ == a@,
{
    let mut out: Vec<u8> = Vec::new();
    let n = a.len();
    let mut k: usize = 0;
    while k < n
        invariant
            0 <= k <= n,
            n == a@.len(),
            out@ == a@.subrange(0, k as int),
        decreases n - k,
    {
        out.push(a[k]);
        proof {
            assert(out@ =~= a@.subrange(0, k as int + 1));
        }
        k += 1;
    }
    proof {
        assert(a@.subrange(0, n as int) =~= a@);
    }
    out
}

/// Byte-for-byte equality of two byte vectors.
pub fn bytes_eq(a: &Vec<u8>, b: &Vec<u8>) -> (r: bool)
    ensures
        r == (a@ == b@),
{
    if a.len() != b.len() {
        return false;
    }
    let n = a.len();
    let mut k: usize = 0;
    while k < n
        invariant
            0 <= k <= n,
            n == a@.len(),
            n == b@.len(),
            forall|j: int| 0 <= j < k ==> a@[j] == b@[j],
        decreases n - k,
    {
        if a[k] != b[k] {
            return false;
        }
        k += 1;
    }
    proof {
        assert(a@ =~= b@);
    }
    true
}

} // verus!
