//! Character-level utilities shared by the index codec: scanning a string for
//! a delimiter, comparing substrings, and lemmas about concatenations of
//! character sequences around a separator.

use vstd::prelude::*;

verus! {

/// No character of `s` is `c`.
pub open spec fn free_of(s: Seq<char>, c: char) -> bool {
    forall|i: int| 0 <= i < s.len() ==> s[i] != c
}

/// In `a + seq![c] + b` with `c` absent from `a`, the first occurrence of `c`
/// is exactly at `a.len()`.
pub proof fn lemma_first_occurrence(a: Seq<char>, b: Seq<char>, c: char)
    requires
        free_of(a, c),
    ensures
        (a + seq![c] + b).len() == a.len() + 1 + b.len(),
        (a + seq![c] + b)[a.len() as int] == c,
        forall|i: int| 0 <= i < a.len() ==> (a + seq![c] + b)[i] == a[i],
        forall|i: int| 0 <= i < a.len() ==> (a + seq![c] + b)[i] != c,
        forall|i: int|
            a.len() < i < (a + seq![c] + b).len() ==> (a + seq![c] + b)[i] == b[i - a.len() - 1],
{
}

/// Splitting at a separator that occurs in neither left part is unambiguous.
pub proof fn lemma_split_at_char(a1: Seq<char>, b1: Seq<char>, a2: Seq<char>, b2: Seq<char>, c: char)
    requires
        free_of(a1, c),
        free_of(a2, c),
        a1 + seq![c] + b1 == a2 + seq![c] + b2,
    ensures
        a1 == a2,
        b1 == b2,
{
    let s = a1 + seq![c] + b1;
    lemma_first_occurrence(a1, b1, c);
    lemma_first_occurrence(a2, b2, c);
    if a1.len() < a2.len() {
        assert(s[a1.len() as int] == c);
        assert((a2 + seq![c] + b2)[a1.len() as int] != c);
        assert(false);
    }
    if a2.len() < a1.len() {
        assert(s[a2.len() as int] == c);
        assert(false);
    }
    assert(a1 =~= a2) by {
        assert(forall|i: int| 0 <= i < a1.len() ==> a1[i] == s[i] && a2[i] == s[i]);
    }
    assert(b1 =~= b2) by {
        assert(forall|i: int|
            0 <= i < b1.len() ==> b1[i] == s[a1.len() + 1 + i] && b2[i] == s[a1.len() + 1 + i]);
    }
}

/// True when the characters of `s` starting at `from` spell out `lit`.
pub fn matches_at(s: &str, from: usize, lit: &str) -> (r: bool)
    requires
        from + lit@.len() <= s@.len(),
    ensures
        r == (s@.subrange(from as int, from + lit@.len()) == lit@),
{
    let n = lit.unicode_len();
    let sn = s.unicode_len();
    let mut i: usize = 0;
    while i < n
        invariant
            n == lit@.len(),
            sn == s@.len(),
            from + n <= sn,
            0 <= i <= n,
            forall|j: int| 0 <= j < i ==> s@[from + j] == lit@[j],
        decreases n - i,
    {
        if s.get_char(from + i) != lit.get_char(i) {
            proof {
                assert(s@.subrange(from as int, from + lit@.len())[i as int] != lit@[i as int]);
            }
            return false;
        }
        i += 1;
    }
    proof {
        assert(s@.subrange(from as int, from + lit@.len()) =~= lit@);
    }
    true
}

/// The two strings hold the same characters.
pub fn str_equal(a: &str, b: &str) -> (r: bool)
    ensures
        r == (a@ == b@),
{
    let na = a.unicode_len();
    let nb = b.unicode_len();
    if na != nb {
        return false;
    }
    let r = matches_at(a, 0, b);
    proof {
        assert(a@.subrange(0, a@.len() as int) =~= a@);
    }
    r
}

/// The index of the first occurrence of `c` in `s` at or after `from`, if any.
pub fn find_char_from(s: &str, c: char, from: usize) -> (r: Option<usize>)
    requires
        from <= s@.len(),
    ensures
        match r {
            Some(j) => from <= j < s@.len() && s@[j as int] == c && (forall|i: int|
                from <= i < j ==> s@[i] != c),
            None => forall|i: int| from <= i < s@.len() ==> s@[i] != c,
        },
{
    let n = s.unicode_len();
    let mut i: usize = from;
    while i < n
        invariant
            n == s@.len(),
            from <= i <= n,
            forall|j: int| from <= j < i ==> s@[j] != c,
        decreases n - i,
    {
        if s.get_char(i) == c {
            return Some(i);
        }
        i += 1;
    }
    None
}

} // verus!
