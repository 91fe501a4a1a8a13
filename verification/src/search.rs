//! A spec-level "first index satisfying a predicate" over a sequence, with
//! its characterization.  Discovery, failover and the retry executor all
//! pick the earliest element of some kind; this gives them one shared way
//! to say so.

use vstd::prelude::*;

verus! {

/// The least index of `s` whose element satisfies `p`, or `s.len()` when
/// no element does.
pub open spec fn first_where<T>(s: Seq<T>, p: spec_fn(T) -> bool) -> int
    decreases s.len(),
{
    if s.len() == 0 {
        0
    } else if p(s[0]) {
        0
    } else {
        1 + first_where(s.drop_first(), p)
    }
}

/// `first_where` is in range, nothing before it satisfies `p`, and the
/// element at it (when in range) does.
pub proof fn lemma_first_where<T>(s: Seq<T>, p: spec_fn(T) -> bool)
    ensures
        0 <= first_where(s, p) <= s.len(),
        forall|k: int| 0 <= k < first_where(s, p) ==> !p(s[k]),
        first_where(s, p) < s.len() ==> p(s[first_where(s, p)]),
    decreases s.len(),
{
    if s.len() > 0 && !p(s[0]) {
        lemma_first_where(s.drop_first(), p);
        assert forall|k: int| 0 <= k < first_where(s, p) implies !p(s[k]) by {
            if k >= 1 {
                assert(s.drop_first()[k - 1] == s[k]);
            }
        }
        if first_where(s, p) < s.len() {
            assert(s.drop_first()[first_where(s.drop_first(), p)] == s[first_where(s, p)]);
        }
    }
}

/// If nothing before `i` satisfies `p` and `i` is either `s.len()` or an
/// index satisfying `p`, then `i` is exactly `first_where`.
pub proof fn lemma_first_where_is<T>(s: Seq<T>, p: spec_fn(T) -> bool, i: int)
    requires
        0 <= i <= s.len(),
        forall|k: int| 0 <= k < i ==> !p(s[k]),
        i < s.len() ==> p(s[i]),
    ensures
        first_where(s, p) == i,
{
    lemma_first_where(s, p);
    let f = first_where(s, p);
    if f < i {
        assert(p(s[f]));
    } else if i < f {
        assert(!p(s[i]));
    }
}

} // verus!
