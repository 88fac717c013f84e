//! Character-level string helpers: searching, slicing and joining,
//! each specified over the string's character sequence.

use vstd::prelude::*;

verus! {

/// The position of the first occurrence of `c` in `s`, or `s.len()`
/// when `c` does not occur.
pub open spec fn spec_find(s: Seq<char>, c: char) -> int
    decreases s.len(),
{
    if s.len() == 0 {
        0
    } else if s[0] == c {
        0
    } else {
        1 + spec_find(s.skip(1), c)
    }
}

/// `spec_find` names the first occurrence: everything before it
/// differs from `c`, and it lands on `c` whenever one occurs.
pub proof fn lemma_spec_find(s: Seq<char>, c: char)
    ensures
        0 <= spec_find(s, c) <= s.len(),
        spec_find(s, c) < s.len() ==> s[spec_find(s, c)] == c,
        forall|j: int| 0 <= j < spec_find(s, c) ==> s[j] != c,
    decreases s.len(),
{
    if s.len() != 0 && s[0] != c {
        lemma_spec_find(s.skip(1), c);
        assert forall|j: int| 0 <= j < spec_find(s, c) implies s[j] != c by {
            if j > 0 {
                assert(s.skip(1)[j - 1] == s[j]);
            }
        }
        if spec_find(s, c) < s.len() {
            assert(s.skip(1)[spec_find(s, c) - 1] == s[spec_find(s, c)]);
        }
    }
}

/// The first position at or after `from` holding `c`.
pub fn find_char_from(s: &str, c: char, from: usize) -> (r: Option<usize>)
    requires
        from <= s@.len(),
    ensures
        match r {
            Some(i) => from <= i < s@.len() && s@[i as int] == c && (forall|j: int|
                from <= j < i ==> s@[j] != c),
            None => forall|j: int| from <= j < s@.len() ==> s@[j] != c,
        },
{
    let len = s.unicode_len();
    let mut i = from;
    while i < len
        invariant
            from <= i <= len,
            len == s@.len(),
            forall|j: int| from <= j < i ==> s@[j] != c,
        decreases len - i,
    {
        if s.get_char(i) == c {
            return Some(i);
        }
        i = i + 1;
    }
    None
}

/// The first position at or after `from` where `a` is immediately
/// followed by `b`.
pub fn find_two_from(s: &str, a: char, b: char, from: usize) -> (r: Option<usize>)
    requires
        from <= s@.len(),
    ensures
        match r {
            Some(i) => from <= i && i + 1 < s@.len() && s@[i as int] == a && s@[i + 1] == b
                && (forall|j: int| from <= j < i ==> !(#[trigger] s@[j] == a && s@[j + 1] == b)),
            None => forall|j: int| from <= j && j + 1 < s@.len() ==> !(#[trigger] s@[j] == a
                && s@[j + 1] == b),
        },
{
    let len = s.unicode_len();
    if len == 0 {
        return None;
    }
    let mut i = from;
    while i < len - 1
        invariant
            from <= i,
            i <= len,
            len == s@.len(),
            len >= 1,
            forall|j: int| from <= j < i ==> !(#[trigger] s@[j] == a && s@[j + 1] == b),
        decreases len - i,
    {
        if s.get_char(i) == a && s.get_char(i + 1) == b {
            return Some(i);
        }
        i = i + 1;
    }
    None
}

/// The owned substring over the character range `[from, to)`.
pub fn substring(s: &str, from: usize, to: usize) -> (r: String)
    requires
        from <= to <= s@.len(),
    ensures
        r@ == s@.subrange(from as int, to as int),
{
    String::from_str(s.substring_char(from, to))
}

/// Whether `s` begins with `prefix`.
pub fn str_starts_with(s: &str, prefix: &str) -> (r: bool)
    ensures
        r == (prefix@.len() <= s@.len() && s@.subrange(0, prefix@.len() as int) =~= prefix@),
{
    let n = s.unicode_len();
    let m = prefix.unicode_len();
    if m > n {
        return false;
    }
    let mut i: usize = 0;
    while i < m
        invariant
            i <= m,
            m <= n,
            n == s@.len(),
            m == prefix@.len(),
            forall|j: int| 0 <= j < i ==> s@[j] == prefix@[j],
        decreases m - i,
    {
        if s.get_char(i) != prefix.get_char(i) {
            assert(s@.subrange(0, m as int)[i as int] != prefix@[i as int]);
            return false;
        }
        i = i + 1;
    }
    assert(s@.subrange(0, m as int) =~= prefix@);
    true
}

/// Whether `needle` occurs in `s` starting at position `at`.
pub fn matches_at(s: &str, needle: &str, at: usize) -> (r: bool)
    requires
        at + needle@.len() <= s@.len(),
    ensures
        r == (s@.subrange(at as int, at + needle@.len()) =~= needle@),
{
    let n = s.unicode_len();
    let m = needle.unicode_len();
    let mut i: usize = 0;
    while i < m
        invariant
            i <= m,
            at + m <= n,
            n == s@.len(),
            m == needle@.len(),
            forall|j: int| 0 <= j < i ==> s@[at + j] == needle@[j],
        decreases m - i,
    {
        if s.get_char(at + i) != needle.get_char(i) {
            assert(s@.subrange(at as int, at + m)[i as int] != needle@[i as int]);
            return false;
        }
        i = i + 1;
    }
    assert(s@.subrange(at as int, at + m) =~= needle@);
    true
}

/// `needle` occurs somewhere in `s`.
pub open spec fn spec_contains(s: Seq<char>, needle: Seq<char>) -> bool {
    exists|i: int|
        0 <= i && i + needle.len() <= s.len() && #[trigger] s.subrange(i, i + needle.len())
            =~= needle
}

/// Whether `needle` occurs anywhere in `s`.
pub fn str_contains(s: &str, needle: &str) -> (r: bool)
    ensures
        r == spec_contains(s@, needle@),
{
    let n = s.unicode_len();
    let m = needle.unicode_len();
    if m > n {
        assert(!spec_contains(s@, needle@));
        return false;
    }
    let mut i: usize = 0;
    while i <= n - m
        invariant
            i <= n - m + 1,
            m <= n,
            n == s@.len(),
            m == needle@.len(),
            forall|j: int| 0 <= j < i ==> !(#[trigger] s@.subrange(j, j + needle@.len())
                =~= needle@),
        decreases n - m + 1 - i,
    {
        if matches_at(s, needle, i) {
            return true;
        }
        i = i + 1;
    }
    assert(!spec_contains(s@, needle@));
    false
}

/// `a` followed by `b` followed by `c`, as one owned string.
pub fn concat3(a: &str, b: &str, c: &str) -> (r: String)
    ensures
        r@ == a@ + b@ + c@,
{
    let mut out = String::from_str(a);
    out.append(b);
    out.append(c);
    out
}

/// The first position in `v` holding the string `x`.
pub fn vec_find_string(v: &Vec<String>, x: &String) -> (r: Option<usize>)
    ensures
        match r {
            Some(i) => i < v@.len() && v@[i as int]@ == x@ && (forall|j: int|
                0 <= j < i ==> v@[j]@ != x@),
            None => forall|j: int| 0 <= j < v@.len() ==> v@[j]@ != x@,
        },
{
    let mut i: usize = 0;
    while i < v.len()
        invariant
            i <= v@.len(),
            forall|j: int| 0 <= j < i ==> v@[j]@ != x@,
        decreases v@.len() - i,
    {
        if v[i].eq(x) {
            return Some(i);
        }
        i = i + 1;
    }
    None
}

} // verus!
