//! ASCII-case-insensitive comparison of wide (UTF-16 code unit) strings.
//!
//! Process and module names arrive from the operating system as sequences of
//! 16-bit code units. Matching ignores ASCII case only: the letters `A`..`Z`
//! compare equal to `a`..`z`, and every other code unit compares exactly.

use vstd::prelude::*;

verus! {

/// The ASCII-lowercase image of one wide code unit: `A`..`Z` fold to
/// `a`..`z`, everything else is unchanged.
pub open spec fn ascii_fold(c: u16) -> u16 {
    if 65 <= c <= 90 {
        (c + 32) as u16
    } else {
        c
    }
}

/// Two wide strings are equal ignoring ASCII case: same length, and every
/// pair of code units folds to the same value.
pub open spec fn wide_eq_ignore_ascii_case(a: Seq<u16>, b: Seq<u16>) -> bool {
    &&& a.len() == b.len()
    &&& forall|i: int| 0 <= i < a.len() ==> ascii_fold(a[i]) == ascii_fold(b[i])
}

/// Folds one wide code unit to ASCII lowercase.
pub fn fold_wide_unit(c: u16) -> (r: u16)
    ensures
        r == ascii_fold(c),
{
    if 65 <= c && c <= 90 {
        c + 32
    } else {
        c
    }
}

/// Compares two wide strings, ignoring ASCII case.
pub fn eq_ignore_ascii_case(a: &[u16], b: &[u16]) -> (r: bool)
    ensures
        r == wide_eq_ignore_ascii_case(a@, b@),
{
    if a.len() != b.len() {
        return false;
    }
    let mut i: usize = 0;
    while i < a.len()
        invariant
            a@.len() == b@.len(),
            i <= a@.len(),
            forall|j: int| 0 <= j < i ==> ascii_fold(a@[j]) == ascii_fold(b@[j]),
        decreases a@.len() - i,
    {
        if fold_wide_unit(a[i]) != fold_wide_unit(b[i]) {
            assert(ascii_fold(a@[i as int]) != ascii_fold(b@[i as int]));
            return false;
        }
        i = i + 1;
    }
    true
}

/// Folding is idempotent: folding an already folded code unit changes nothing.
pub proof fn lemma_ascii_fold_idempotent(c: u16)
    ensures
        ascii_fold(ascii_fold(c)) == ascii_fold(c),
{
}

/// Comparison ignoring ASCII case is symmetric.
pub proof fn lemma_eq_ignore_ascii_case_symmetric(a: Seq<u16>, b: Seq<u16>)
    ensures
        wide_eq_ignore_ascii_case(a, b) == wide_eq_ignore_ascii_case(b, a),
{
}

/// Comparison ignoring ASCII case is transitive.
pub proof fn lemma_eq_ignore_ascii_case_transitive(a: Seq<u16>, b: Seq<u16>, c: Seq<u16>)
    requires
        wide_eq_ignore_ascii_case(a, b),
        wide_eq_ignore_ascii_case(b, c),
    ensures
        wide_eq_ignore_ascii_case(a, c),
{
}

/// The comparison is insensitive to ASCII case: folding one side to
/// lowercase never changes the outcome. In particular a string matches its
/// own lowercase spelling.
pub proof fn lemma_eq_ignore_ascii_case_fold_left(a: Seq<u16>, b: Seq<u16>)
    ensures
        wide_eq_ignore_ascii_case(a.map_values(|c: u16| ascii_fold(c)), b)
            == wide_eq_ignore_ascii_case(a, b),
{
    let fa = a.map_values(|c: u16| ascii_fold(c));
    assert(fa.len() == a.len());
    assert forall|i: int| 0 <= i < a.len() implies ascii_fold(fa[i]) == ascii_fold(a[i]) by {
        lemma_ascii_fold_idempotent(a[i]);
    }
}

} // verus!
