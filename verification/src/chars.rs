//! Character-level helpers shared by the string-handling components.

use vstd::prelude::*;
use vstd::string::StrSliceExecFns;

verus! {

/// Index of the first occurrence of `c` in `s` at or after `from`.
pub open spec fn find_char_from(s: Seq<char>, c: char, from: int) -> Option<int>
    decreases s.len() - from,
{
    if from < 0 || from >= s.len() {
        None
    } else if s[from] == c {
        Some(from)
    } else {
        find_char_from(s, c, from + 1)
    }
}

/// Index of the last occurrence of `c` in `s`.
pub open spec fn rfind_char_in(s: Seq<char>, c: char) -> Option<int>
    decreases s.len(),
{
    if s.len() == 0 {
        None
    } else if s.last() == c {
        Some(s.len() - 1)
    } else {
        rfind_char_in(s.drop_last(), c)
    }
}

proof fn lemma_find_char_hit(s: Seq<char>, c: char, from: int, i: int)
    requires
        0 <= from <= i < s.len(),
        s[i] == c,
        forall|j: int| from <= j < i ==> s[j] != c,
    ensures
        find_char_from(s, c, from) == Some(i),
    decreases i - from,
{
    if from < i {
        lemma_find_char_hit(s, c, from + 1, i);
    }
}

proof fn lemma_find_char_miss(s: Seq<char>, c: char, from: int)
    requires
        0 <= from,
        forall|j: int| from <= j < s.len() ==> s[j] != c,
    ensures
        find_char_from(s, c, from) is None,
    decreases s.len() - from,
{
    if from < s.len() {
        lemma_find_char_miss(s, c, from + 1);
    }
}

proof fn lemma_rfind_char_hit(s: Seq<char>, c: char, i: int)
    requires
        0 <= i < s.len(),
        s[i] == c,
        forall|j: int| i < j < s.len() ==> s[j] != c,
    ensures
        rfind_char_in(s, c) == Some(i),
    decreases s.len(),
{
    if i < s.len() - 1 {
        assert(s.last() != c);
        assert(s.drop_last()[i] == c);
        lemma_rfind_char_hit(s.drop_last(), c, i);
    }
}

proof fn lemma_rfind_char_miss(s: Seq<char>, c: char)
    requires
        forall|j: int| 0 <= j < s.len() ==> s[j] != c,
    ensures
        rfind_char_in(s, c) is None,
    decreases s.len(),
{
    if s.len() > 0 {
        lemma_rfind_char_miss(s.drop_last(), c);
    }
}

/// First occurrence of `c` in `s` at or after index `from`, by a forward scan.
pub fn find_char(s: &str, c: char, from: usize) -> (r: Option<usize>)
    ensures
        r matches Some(i) ==> find_char_from(s@, c, from as int) == Some(i as int) && from <= i
            < s@.len() && s@[i as int] == c && (forall|j: int| from <= j < i ==> s@[j] != c),
        r is None ==> find_char_from(s@, c, from as int) is None && (forall|j: int|
            from <= j < s@.len() ==> s@[j] != c),
{
    let n = s.unicode_len();
    let mut i = from;
    while i < n
        invariant
            from <= i,
            n == s@.len(),
            forall|j: int| from <= j < i ==> s@[j] != c,
        decreases n - i,
    {
        if s.get_char(i) == c {
            proof {
                lemma_find_char_hit(s@, c, from as int, i as int);
            }
            return Some(i);
        }
        i = i + 1;
    }
    proof {
        lemma_find_char_miss(s@, c, from as int);
    }
    None
}

/// Last occurrence of `c` in `s`, by a backward scan.
pub fn rfind_char(s: &str, c: char) -> (r: Option<usize>)
    ensures
        r matches Some(i) ==> rfind_char_in(s@, c) == Some(i as int) && i < s@.len()
            && s@[i as int] == c && (forall|j: int| i < j < s@.len() ==> s@[j] != c),
        r is None ==> rfind_char_in(s@, c) is None && (forall|j: int|
            0 <= j < s@.len() ==> s@[j] != c),
{
    let n = s.unicode_len();
    let mut i = n;
    while i > 0
        invariant
            i <= n,
            n == s@.len(),
            forall|j: int| i <= j < n ==> s@[j] != c,
        decreases i,
    {
        i = i - 1;
        if s.get_char(i) == c {
            proof {
                lemma_rfind_char_hit(s@, c, i as int);
            }
            return Some(i);
        }
    }
    proof {
        lemma_rfind_char_miss(s@, c);
    }
    None
}

/// Character-for-character string equality.
pub fn str_eq(a: &str, b: &str) -> (r: bool)
    ensures
        r == (a@ == b@),
{
    let na = a.unicode_len();
    let nb = b.unicode_len();
    if na != nb {
        return false;
    }
    let mut i: usize = 0;
    while i < na
        invariant
            i <= na,
            na == a@.len(),
            na == b@.len(),
            forall|j: int| 0 <= j < i ==> a@[j] == b@[j],
        decreases na - i,
    {
        if a.get_char(i) != b.get_char(i) {
            return false;
        }
        i = i + 1;
    }
    proof {
        assert(a@ =~= b@);
    }
    true
}

} // verus!
