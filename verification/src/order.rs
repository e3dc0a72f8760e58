//! Stable sorting by a rank that the elements carry.

use vstd::prelude::*;

verus! {

/// An element that can be ranked against another of its kind. The rank is a
/// total preorder: any two elements compare, and the comparison is
/// transitive.
pub trait Ranked: Sized {
    /// `self` may stand before `other`.
    spec fn ranks_before(&self, other: &Self) -> bool;

    /// Whether `self` may stand before `other`.
    fn goes_before(&self, other: &Self) -> (before: bool)
        ensures
            before == self.ranks_before(other),
    ;

    proof fn rank_is_total(a: &Self, b: &Self)
        ensures
            a.ranks_before(b) || b.ranks_before(a),
    ;

    proof fn rank_is_transitive(a: &Self, b: &Self, c: &Self)
        requires
            a.ranks_before(b),
            b.ranks_before(c),
        ensures
            a.ranks_before(c),
    ;
}

/// Every element of `s` may stand before all that follow it.
pub open spec fn is_sorted<T: Ranked>(s: Seq<T>) -> bool {
    forall|i: int, j: int| #![trigger s[i], s[j]] 0 <= i < j < s.len() ==> s[i].ranks_before(&s[j])
}

/// Where `x` goes into the sorted sequence `sorted`: before the first
/// element that it may stand before, and at the end where there is none.
pub open spec fn slot_for<T: Ranked>(sorted: Seq<T>, x: T) -> int
    decreases sorted.len(),
{
    if sorted.len() == 0 {
        0
    } else if x.ranks_before(&sorted[0]) {
        0
    } else {
        1 + slot_for(sorted.drop_first(), x)
    }
}

/// `s` sorted by rank, with elements of equal rank in the order in which
/// they stand in `s`.
pub open spec fn sorted_of<T: Ranked>(s: Seq<T>) -> Seq<T>
    decreases s.len(),
{
    if s.len() == 0 {
        Seq::empty()
    } else {
        let rest = sorted_of(s.drop_first());
        rest.insert(slot_for(rest, s[0]), s[0])
    }
}

/// What `slot_for` finds.
pub proof fn lemma_slot<T: Ranked>(sorted: Seq<T>, x: T)
    ensures
        0 <= slot_for(sorted, x) <= sorted.len(),
        forall|j: int| #![trigger sorted[j]] 0 <= j < slot_for(sorted, x) ==> !x.ranks_before(&sorted[j]),
        slot_for(sorted, x) < sorted.len() ==> x.ranks_before(&sorted[slot_for(sorted, x)]),
    decreases sorted.len(),
{
    if sorted.len() > 0 && !x.ranks_before(&sorted[0]) {
        let rest = sorted.drop_first();
        lemma_slot(rest, x);
        assert forall|j: int| #![trigger sorted[j]] 0 <= j < slot_for(sorted, x) implies !x.ranks_before(
            &sorted[j],
        ) by {
            if j > 0 {
                assert(rest[j - 1] == sorted[j]);
            }
        }
    }
}

/// `slot_for` is the one index with no element before it that `x` may stand
/// before, and such an element at it.
pub proof fn lemma_slot_is<T: Ranked>(sorted: Seq<T>, x: T, k: int)
    requires
        0 <= k <= sorted.len(),
        forall|j: int| #![trigger sorted[j]] 0 <= j < k ==> !x.ranks_before(&sorted[j]),
        k < sorted.len() ==> x.ranks_before(&sorted[k]),
    ensures
        slot_for(sorted, x) == k,
    decreases sorted.len(),
{
    if sorted.len() > 0 && k > 0 {
        lemma_slot_is(sorted.drop_first(), x, k - 1);
    }
}

/// Putting `x` into its slot keeps a sorted sequence sorted.
pub proof fn lemma_insert_keeps_sorted<T: Ranked>(sorted: Seq<T>, x: T)
    requires
        is_sorted(sorted),
    ensures
        is_sorted(sorted.insert(slot_for(sorted, x), x)),
{
    lemma_slot(sorted, x);
    let p = slot_for(sorted, x);
    let out = sorted.insert(p, x);
    assert forall|i: int, j: int| #![trigger out[i], out[j]] 0 <= i < j < out.len() implies out[i].ranks_before(
        &out[j],
    ) by {
        if j == p {
            T::rank_is_total(&x, &sorted[i]);
        } else if i == p && j - 1 > p {
            T::rank_is_transitive(&x, &sorted[p], &sorted[j - 1]);
        }
    }
}

/// `sorted_of` is sorted and holds exactly the elements of `s`, each as
/// often as `s` holds it.
pub proof fn law_sorted_of_is_a_sorted_permutation<T: Ranked>(s: Seq<T>)
    ensures
        is_sorted(sorted_of(s)),
        sorted_of(s).len() == s.len(),
        sorted_of(s).to_multiset() == s.to_multiset(),
    decreases s.len(),
{
    broadcast use vstd::seq_lib::group_to_multiset_ensures;

    if s.len() > 0 {
        let rest = sorted_of(s.drop_first());
        law_sorted_of_is_a_sorted_permutation(s.drop_first());
        lemma_slot(rest, s[0]);
        lemma_insert_keeps_sorted(rest, s[0]);
        assert(s.to_multiset() =~= s.drop_first().to_multiset().insert(s[0])) by {
            assert(s.remove(0).to_multiset() =~= s.to_multiset().remove(s[0]));
        }
    }
}

/// What is sorted already stays as it is, elements of equal rank included:
/// none of them changes place.
pub proof fn law_sorting_keeps_what_is_sorted<T: Ranked>(s: Seq<T>)
    requires
        is_sorted(s),
    ensures
        sorted_of(s) == s,
    decreases s.len(),
{
    if s.len() > 0 {
        let rest = s.drop_first();
        law_sorting_keeps_what_is_sorted(rest);
    }
}

/// Sorts `items` by rank. The sort is stable: elements of equal rank keep
/// their order.
pub fn sort_ranked<T: Ranked>(items: Vec<T>) -> (sorted: Vec<T>)
    ensures
        sorted@ == sorted_of(items@),
{
    let mut items = items;
    let mut sorted: Vec<T> = Vec::new();
    let ghost all = items@;
    while items.len() > 0
        invariant
            items@ == all.take(items@.len() as int),
            items@.len() <= all.len(),
            sorted@ == sorted_of(all.skip(items@.len() as int)),
        decreases items.len(),
    {
        let ghost n = items@.len() as int;
        let x = items.pop().unwrap();
        proof {
            assert(all.skip(n - 1).drop_first() =~= all.skip(n));
        }
        let mut p: usize = 0;
        while p < sorted.len() && !x.goes_before(&sorted[p])
            invariant
                p <= sorted.len(),
                forall|j: int| #![trigger sorted@[j]] 0 <= j < p ==> !x.ranks_before(&sorted@[j]),
            decreases sorted.len() - p,
        {
            p = p + 1;
        }
        proof {
            lemma_slot_is(sorted@, x, p as int);
        }
        sorted.insert(p, x);
    }
    sorted
}

} // verus!
