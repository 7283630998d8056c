//! The first position of a value in a sequence.

use vstd::prelude::*;

verus! {

/// The first position of `x` in `s`, if `x` occurs in it.
pub open spec fn first_index_of(s: Seq<u32>, x: u32) -> Option<int>
    decreases s.len(),
{
    if s.len() == 0 {
        None
    } else {
        match first_index_of(s.drop_last(), x) {
            Some(i) => Some(i),
            None => if s.last() == x {
                Some(s.len() - 1)
            } else {
                None
            },
        }
    }
}

/// The first position of `x` is a position of `x`, and no earlier position holds `x`.
pub proof fn lemma_first_index_of(s: Seq<u32>, x: u32)
    ensures
        match first_index_of(s, x) {
            Some(i) => 0 <= i < s.len() && s[i] == x && forall|j: int| 0 <= j < i ==> s[j] != x,
            None => forall|j: int| 0 <= j < s.len() ==> s[j] != x,
        },
    decreases s.len(),
{
    if s.len() > 0 {
        lemma_first_index_of(s.drop_last(), x);
        assert forall|j: int| 0 <= j < s.len() - 1 implies s.drop_last()[j] == s[j] by {}
    }
}

/// A first position found in a prefix is the first position in the whole sequence.
pub proof fn lemma_first_index_of_prefix(s: Seq<u32>, k: int, x: u32)
    requires
        0 <= k <= s.len(),
        first_index_of(s.take(k), x) is Some,
    ensures
        first_index_of(s, x) == first_index_of(s.take(k), x),
    decreases s.len() - k,
{
    if k < s.len() {
        assert(s.drop_last().take(k) =~= s.take(k));
        lemma_first_index_of_prefix(s.drop_last(), k, x);
    } else {
        assert(s.take(k) =~= s);
    }
}

/// Extending a prefix without `x` by one element.
pub proof fn lemma_first_index_of_step(s: Seq<u32>, k: int, x: u32)
    requires
        0 <= k < s.len(),
        first_index_of(s.take(k), x) is None,
    ensures
        first_index_of(s.take(k + 1), x) == (if s[k] == x {
            Some(k)
        } else {
            None::<int>
        }),
{
    assert(s.take(k + 1).drop_last() =~= s.take(k));
}

} // verus!
