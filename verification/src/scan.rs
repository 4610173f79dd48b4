//! Finding the first element of a sequence that stands out.

use vstd::prelude::*;

verus! {

/// The number of leading elements of `s` that satisfy `skip`: the index of
/// the first element that does not, or the length where all do.
pub open spec fn leading<T>(s: Seq<T>, skip: spec_fn(T) -> bool) -> int
    decreases s.len(),
{
    if s.len() == 0 || !skip(s[0]) {
        0
    } else {
        1 + leading(s.drop_first(), skip)
    }
}

/// `leading` lies inside the sequence, every element before it satisfies
/// `skip`, and the element at it, if there is one, does not.
pub proof fn lemma_leading_bounds<T>(s: Seq<T>, skip: spec_fn(T) -> bool)
    ensures
        0 <= leading(s, skip) <= s.len(),
        forall|i: int| 0 <= i < leading(s, skip) ==> skip(#[trigger] s[i]),
        leading(s, skip) < s.len() ==> !skip(s[leading(s, skip)]),
    decreases s.len(),
{
    if s.len() == 0 || !skip(s[0]) {
    } else {
        let t = s.drop_first();
        lemma_leading_bounds(t, skip);
        assert forall|i: int| 0 <= i < leading(s, skip) implies skip(#[trigger] s[i]) by {
            if i > 0 {
                assert(s[i] == t[i - 1]);
            }
        }
        if leading(s, skip) < s.len() {
            assert(s[leading(s, skip)] == t[leading(t, skip)]);
        }
    }
}

/// An index with only elements that satisfy `skip` before it and none such
/// at it is `leading`.
pub proof fn lemma_leading_unique<T>(s: Seq<T>, skip: spec_fn(T) -> bool, p: int)
    requires
        0 <= p <= s.len(),
        forall|i: int| 0 <= i < p ==> skip(#[trigger] s[i]),
        p < s.len() ==> !skip(s[p]),
    ensures
        leading(s, skip) == p,
    decreases s.len(),
{
    if s.len() == 0 {
    } else if !skip(s[0]) {
        if p > 0 {
            assert(skip(s[0]));
        }
    } else {
        let t = s.drop_first();
        assert forall|i: int| 0 <= i < p - 1 implies skip(#[trigger] t[i]) by {
            assert(t[i] == s[i + 1]);
        }
        if p - 1 < t.len() {
            assert(t[p - 1] == s[p]);
        }
        lemma_leading_unique(t, skip, p - 1);
    }
}

} // verus!
