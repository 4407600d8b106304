//! Searching sequences for the first element with a property.

use vstd::prelude::*;

verus! {

/// Index of the first element of the sequence satisfying the predicate.
pub open spec fn first_index<A>(s: Seq<A>, p: spec_fn(A) -> bool) -> Option<int> {
    if exists|i: int| 0 <= i < s.len() && p(#[trigger] s[i]) {
        Some(
            choose|i: int|
                0 <= i < s.len() && p(s[i]) && forall|j: int| 0 <= j < i ==> !p(#[trigger] s[j]),
        )
    } else {
        None
    }
}

/// The first element satisfying the predicate is at the index provided.
pub proof fn lemma_first_index_at<A>(s: Seq<A>, p: spec_fn(A) -> bool, i: int)
    requires
        0 <= i < s.len(),
        p(s[i]),
        forall|j: int| 0 <= j < i ==> !p(#[trigger] s[j]),
    ensures
        first_index(s, p) == Some(i),
{
    assert(exists|k: int| 0 <= k < s.len() && p(#[trigger] s[k]));
    let c = choose|k: int|
        0 <= k < s.len() && p(s[k]) && forall|j: int| 0 <= j < k ==> !p(#[trigger] s[j]);
    assert(0 <= i < s.len() && p(s[i]) && forall|j: int| 0 <= j < i ==> !p(#[trigger] s[j]));
    if c < i {
        assert(!p(s[c]));
    }
    if c > i {
        assert(!p(s[i]));
    }
}

/// No element satisfies the predicate.
pub proof fn lemma_first_index_none<A>(s: Seq<A>, p: spec_fn(A) -> bool)
    requires
        forall|j: int| 0 <= j < s.len() ==> !p(#[trigger] s[j]),
    ensures
        first_index(s, p) is None,
{
}


/// The index found holds an element satisfying the predicate.
pub proof fn lemma_first_index_some<A>(s: Seq<A>, p: spec_fn(A) -> bool)
    ensures
        first_index(s, p) matches Some(k) ==> 0 <= k < s.len() && p(s[k]),
{
    if exists|i: int| 0 <= i < s.len() && p(#[trigger] s[i]) {
        lemma_first_index_exists(s, p);
    }
}

/// Where some element satisfies the predicate, there is a first one.
proof fn lemma_first_index_exists<A>(s: Seq<A>, p: spec_fn(A) -> bool)
    requires
        exists|i: int| 0 <= i < s.len() && p(#[trigger] s[i]),
    ensures
        exists|i: int|
            0 <= i < s.len() && p(s[i]) && forall|j: int| 0 <= j < i ==> !p(#[trigger] s[j]),
    decreases s.len(),
{
    let w = choose|i: int| 0 <= i < s.len() && p(#[trigger] s[i]);
    if exists|i: int| 0 <= i < s.len() - 1 && p(#[trigger] s.drop_last()[i]) {
        lemma_first_index_exists(s.drop_last(), p);
        let i = choose|i: int|
            0 <= i < s.drop_last().len() && p(s.drop_last()[i]) && forall|j: int|
                0 <= j < i ==> !p(#[trigger] s.drop_last()[j]);
        assert(s[i] == s.drop_last()[i]);
        assert forall|j: int| 0 <= j < i implies !p(#[trigger] s[j]) by {
            assert(s[j] == s.drop_last()[j]);
        }
    } else {
        assert(w == s.len() - 1) by {
            if w < s.len() - 1 {
                assert(s.drop_last()[w] == s[w]);
            }
        }
        assert forall|j: int| 0 <= j < w implies !p(#[trigger] s[j]) by {
            assert(s.drop_last()[j] == s[j]);
        }
    }
}

} // verus!
