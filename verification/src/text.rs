//! Small operations on text that the grammar and the rendering code share.
use vstd::prelude::*;

verus! {

/// Index of the first `'='` in `s` at or after `i`, or `s.len()` when there is none.
pub open spec fn first_eq_from(s: Seq<char>, i: int) -> int
    decreases s.len() - i,
{
    if i >= s.len() || i < 0 {
        s.len() as int
    } else if s[i] == '=' {
        i
    } else {
        first_eq_from(s, i + 1)
    }
}

/// Index of the first `'='` in `s`, or `s.len()` when there is none.
pub open spec fn first_eq(s: Seq<char>) -> int {
    first_eq_from(s, 0)
}

pub proof fn lemma_first_eq_from_bounds(s: Seq<char>, i: int)
    requires
        0 <= i <= s.len(),
    ensures
        i <= first_eq_from(s, i) <= s.len(),
        first_eq_from(s, i) < s.len() ==> s[first_eq_from(s, i)] == '=',
        forall|j: int| i <= j < first_eq_from(s, i) ==> s[j] != '=',
    decreases s.len() - i,
{
    if i < s.len() && s[i] != '=' {
        lemma_first_eq_from_bounds(s, i + 1);
    }
}

/// Whether two strings hold the same characters.
pub fn same_text(a: &str, b: &str) -> (r: bool)
    ensures
        r == (a@ == b@),
{
    let n = a.unicode_len();
    let m = b.unicode_len();
    if n != m {
        return false;
    }
    let mut i: usize = 0;
    while i < n
        invariant
            n == a@.len(),
            m == b@.len(),
            n == m,
            i <= n,
            forall|j: int| 0 <= j < i ==> a@[j] == b@[j],
        decreases n - i,
    {
        if a.get_char(i) != b.get_char(i) {
            return false;
        }
        i = i + 1;
    }
    assert(a@ =~= b@);
    true
}

/// Position of the first `'='` in `s`, or its length when it holds none.
pub fn find_eq(s: &str) -> (r: usize)
    ensures
        r as int == first_eq(s@),
        r <= s@.len(),
{
    let n = s.unicode_len();
    let mut i: usize = 0;
    while i < n
        invariant
            n == s@.len(),
            i <= n,
            first_eq_from(s@, 0) == first_eq_from(s@, i as int),
        decreases n - i,
    {
        if s.get_char(i) == '=' {
            return i;
        }
        i = i + 1;
    }
    i
}

} // verus!
