//! A small verified helper: the first index of a sequence satisfying a
//! predicate, and the lemmas that pin it down.

use vstd::prelude::*;

verus! {

/// Index of the first element satisfying `p`, or -1 when none does.
pub open spec fn first_where<T>(s: Seq<T>, p: spec_fn(T) -> bool) -> int
    decreases s.len(),
{
    if s.len() == 0 {
        -1
    } else if p(s[0]) {
        0
    } else {
        let r = first_where(s.drop_first(), p);
        if r < 0 {
            -1
        } else {
            r + 1
        }
    }
}

pub proof fn lemma_first_where_bounds<T>(s: Seq<T>, p: spec_fn(T) -> bool)
    ensures
        -1 <= first_where(s, p) < s.len(),
        first_where(s, p) >= 0 ==> p(s[first_where(s, p)]),
        first_where(s, p) >= 0 ==> forall|j: int| 0 <= j < first_where(s, p) ==> !p(s[j]),
        first_where(s, p) == -1 ==> forall|j: int| 0 <= j < s.len() ==> !p(s[j]),
    decreases s.len(),
{
    if s.len() > 0 && !p(s[0]) {
        lemma_first_where_bounds(s.drop_first(), p);
        let r = first_where(s.drop_first(), p);
        if r >= 0 {
            assert(s[r + 1] == s.drop_first()[r]);
            assert forall|j: int| 0 <= j < r + 1 implies !p(s[j]) by {
                if j > 0 {
                    assert(s[j] == s.drop_first()[j - 1]);
                }
            }
        } else {
            assert forall|j: int| 0 <= j < s.len() implies !p(s[j]) by {
                if j > 0 {
                    assert(s[j] == s.drop_first()[j - 1]);
                }
            }
        }
    }
}

/// The first matching index is pinned by its defining properties.
pub proof fn lemma_first_where_is<T>(s: Seq<T>, p: spec_fn(T) -> bool, i: int)
    requires
        0 <= i < s.len(),
        p(s[i]),
        forall|j: int| 0 <= j < i ==> !p(s[j]),
    ensures
        first_where(s, p) == i,
    decreases s.len(),
{
    if i > 0 {
        assert forall|j: int| 0 <= j < i - 1 implies !p(s.drop_first()[j]) by {
            assert(s.drop_first()[j] == s[j + 1]);
        }
        assert(s.drop_first()[i - 1] == s[i]);
        lemma_first_where_is(s.drop_first(), p, i - 1);
    }
}

/// Index of the last element satisfying `p`, or -1 when none does.
pub open spec fn last_where<T>(s: Seq<T>, p: spec_fn(T) -> bool) -> int
    decreases s.len(),
{
    if s.len() == 0 {
        -1
    } else if p(s.last()) {
        s.len() - 1
    } else {
        last_where(s.drop_last(), p)
    }
}

pub proof fn lemma_last_where_bounds<T>(s: Seq<T>, p: spec_fn(T) -> bool)
    ensures
        -1 <= last_where(s, p) < s.len(),
        last_where(s, p) >= 0 ==> p(s[last_where(s, p)]),
        last_where(s, p) >= 0 ==> forall|j: int| last_where(s, p) < j < s.len() ==> !p(s[j]),
        last_where(s, p) == -1 ==> forall|j: int| 0 <= j < s.len() ==> !p(s[j]),
    decreases s.len(),
{
    if s.len() > 0 && !p(s.last()) {
        lemma_last_where_bounds(s.drop_last(), p);
        let r = last_where(s.drop_last(), p);
        if r >= 0 {
            assert(s[r] == s.drop_last()[r]);
            assert forall|j: int| r < j < s.len() implies !p(s[j]) by {
                if j < s.len() - 1 {
                    assert(s[j] == s.drop_last()[j]);
                }
            }
        } else {
            assert forall|j: int| 0 <= j < s.len() implies !p(s[j]) by {
                if j < s.len() - 1 {
                    assert(s[j] == s.drop_last()[j]);
                }
            }
        }
    }
}

/// The last matching index is pinned by its defining properties.
pub proof fn lemma_last_where_is<T>(s: Seq<T>, p: spec_fn(T) -> bool, i: int)
    requires
        0 <= i < s.len(),
        p(s[i]),
        forall|j: int| i < j < s.len() ==> !p(s[j]),
    ensures
        last_where(s, p) == i,
    decreases s.len(),
{
    if i < s.len() - 1 {
        assert forall|j: int| i < j < s.drop_last().len() implies !p(s.drop_last()[j]) by {
            assert(s.drop_last()[j] == s[j]);
        }
        assert(s.drop_last()[i] == s[i]);
        lemma_last_where_is(s.drop_last(), p, i);
    }
}

} // verus!
