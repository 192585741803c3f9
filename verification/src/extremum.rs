//! Finding the maximum element of a non-empty integer sequence.
//!
//! The running maximum is replaced only on a strictly greater element, so
//! when the maximum value occurs more than once the element returned is its
//! first (lowest-index) occurrence.

use vstd::prelude::*;
use vstd::slice::slice_index_get;

verus! {

/// The error raised when a maximum is requested of an empty sequence.
#[derive(Clone, Copy, Debug, PartialEq, Eq, Structural)]
pub struct EmptyInputError;

/// The index of the first occurrence of the maximum value of `s`.
///
/// Scanning left to right and keeping the current element only when it is
/// strictly greater than the running maximum lands exactly on this index.
pub open spec fn first_max_index(s: Seq<i32>) -> int
    recommends
        s.len() > 0,
    decreases s.len(),
{
    if s.len() <= 1 {
        0
    } else {
        let i = first_max_index(s.drop_last());
        if s[s.len() - 1] > s[i] { s.len() - 1 } else { i }
    }
}

/// The extremum is an element of the input, and no element of the input
/// compares strictly greater than it.
pub proof fn lemma_extremum_is_maximal(s: Seq<i32>)
    requires
        s.len() > 0,
    ensures
        0 <= first_max_index(s) < s.len(),
        forall|j: int| 0 <= j < s.len() ==> #[trigger] s[j] <= s[first_max_index(s)],
    decreases s.len(),
{
    if s.len() > 1 {
        let sub = s.drop_last();
        lemma_extremum_is_maximal(sub);
        let i = first_max_index(sub);
        assert forall|j: int| 0 <= j < s.len() implies #[trigger] s[j] <= s[first_max_index(s)] by {
            if j < sub.len() {
                assert(sub[j] == s[j]);
                assert(sub[j] <= sub[i]);
            }
        }
    }
}

/// Every element before the extremum's index compares strictly smaller than
/// the extremum: when the maximum value occurs more than once, the index
/// found is that of its first occurrence.
pub proof fn lemma_extremum_is_first_occurrence(s: Seq<i32>)
    requires
        s.len() > 0,
    ensures
        forall|j: int| 0 <= j < first_max_index(s) ==> #[trigger] s[j] < s[first_max_index(s)],
    decreases s.len(),
{
    if s.len() > 1 {
        let sub = s.drop_last();
        lemma_extremum_is_first_occurrence(sub);
        lemma_extremum_is_maximal(sub);
        let i = first_max_index(sub);
        assert forall|j: int| 0 <= j < first_max_index(s) implies #[trigger] s[j] < s[
            first_max_index(s)
        ] by {
            assert(sub[j] == s[j]);
            assert(sub[j] <= sub[i]);
        }
    }
}

/// Returns a reference to the first occurrence of the maximum element.
///
/// The caller must supply a non-empty slice; `extremum_of` offers the same
/// scan behind an explicit emptiness check.
pub fn largest_i32(list: &[i32]) -> (r: &i32)
    requires
        list@.len() > 0,
    ensures
        *r == list@[first_max_index(list@)],
{
    let mut n: &i32 = slice_index_get(list, 0);
    let mut best: usize = 0;
    let mut i: usize = 1;
    proof {
        assert(list@.take(1) =~= seq![list@[0]]);
    }
    while i < list.len()
        invariant
            1 <= i <= list@.len(),
            best < i,
            best as int == first_max_index(list@.take(i as int)),
            *n == list@[best as int],
        decreases list@.len() - i,
    {
        let cur = slice_index_get(list, i);
        proof {
            let prefix = list@.take(i as int);
            let next = list@.take(i as int + 1);
            lemma_extremum_is_maximal(prefix);
            assert(next.drop_last() =~= prefix);
            assert(next[i as int] == list@[i as int]);
        }
        if *cur > *n {
            n = cur;
            best = i;
        }
        i = i + 1;
    }
    proof {
        assert(list@.take(list@.len() as int) =~= list@);
    }
    n
}

/// Returns a reference to the first occurrence of the maximum element, or
/// `EmptyInputError` when the sequence holds no element at all.
///
/// Emptiness is tested explicitly, never discovered through an out-of-range
/// access: the scan itself demands a non-empty input.
pub fn extremum_of(list: &[i32]) -> (r: Result<&i32, EmptyInputError>)
    ensures
        list@.len() == 0 <==> r is Err,
        list@.len() > 0 ==> (r matches Ok(m) && *m == list@[first_max_index(list@)]),
{
    if list.len() == 0 {
        Err(EmptyInputError)
    } else {
        Ok(largest_i32(list))
    }
}

} // verus!
