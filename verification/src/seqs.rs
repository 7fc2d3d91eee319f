//! Small sequence lemmas shared by the loops that build filtered or
//! counted results element by element.

use vstd::multiset::Multiset;
use vstd::prelude::*;

verus! {

/// Extending a prefix of `s` by one element extends its filtered image by
/// that element exactly when the element satisfies the predicate.
pub proof fn lemma_filter_take_step<A>(s: Seq<A>, i: int, pred: spec_fn(A) -> bool)
    requires
        0 <= i < s.len(),
    ensures
        s.take(i + 1).filter(pred) == if pred(s[i]) {
            s.take(i).filter(pred).push(s[i])
        } else {
            s.take(i).filter(pred)
        },
{
    reveal(Seq::filter);
    let t2 = s.take(i + 1);
    assert(t2.drop_last() =~= s.take(i));
    assert(t2.last() == s[i]);
    assert(t2.filter(pred) == if pred(t2.last()) {
        t2.drop_last().filter(pred).push(t2.last())
    } else {
        t2.drop_last().filter(pred)
    });
}

/// Appending one element changes the filtered image by that element
/// exactly when the element satisfies the predicate.
pub proof fn lemma_filter_push<A>(s: Seq<A>, x: A, pred: spec_fn(A) -> bool)
    ensures
        s.push(x).filter(pred) == if pred(x) {
            s.filter(pred).push(x)
        } else {
            s.filter(pred)
        },
{
    reveal(Seq::filter);
    let t = s.push(x);
    assert(t.drop_last() =~= s);
    assert(t.last() == x);
    assert(t.filter(pred) == if pred(t.last()) {
        t.drop_last().filter(pred).push(t.last())
    } else {
        t.drop_last().filter(pred)
    });
}

/// How many elements of `s` satisfy `pred` depends only on which elements
/// `s` holds, not on their order: the count equals the size of the
/// filtered multiset of `s`'s elements.
pub proof fn lemma_filter_len_is_multiset_filter_len<A>(s: Seq<A>, pred: spec_fn(A) -> bool)
    ensures
        s.filter(pred).len() == s.to_multiset().filter(pred).len(),
    decreases s.len(),
{
    broadcast use vstd::seq_lib::group_to_multiset_ensures;
    broadcast use vstd::multiset::group_multiset_axioms;

    if s.len() == 0 {
        reveal(Seq::filter);
        assert(s.to_multiset().len() == 0);
        assert forall|v: A| s.to_multiset().filter(pred).count(v) == 0 by {
            assert(s.to_multiset().count(v) <= s.to_multiset().len());
        }
        assert(s.to_multiset().filter(pred) =~= Multiset::<A>::empty());
    } else {
        let t = s.drop_last();
        let x = s.last();
        lemma_filter_len_is_multiset_filter_len(t, pred);
        lemma_filter_push(t, x, pred);
        assert(t.push(x) =~= s);
        let m = t.to_multiset();
        assert(s.to_multiset() == m.insert(x));
        if pred(x) {
            assert forall|v: A| m.insert(x).filter(pred).count(v) == m.filter(pred).insert(
                x,
            ).count(v) by {
                vstd::multiset::lemma_insert_increases_count_by_1(m, x);
                vstd::multiset::lemma_insert_other_elements_unchanged(m, x, v);
                vstd::multiset::lemma_insert_increases_count_by_1(m.filter(pred), x);
                vstd::multiset::lemma_insert_other_elements_unchanged(m.filter(pred), x, v);
            }
            assert(m.insert(x).filter(pred) =~= m.filter(pred).insert(x));
            vstd::multiset::lemma_insert_len(m.filter(pred), x);
        } else {
            assert forall|v: A| m.insert(x).filter(pred).count(v) == m.filter(pred).count(v) by {
                vstd::multiset::lemma_insert_increases_count_by_1(m, x);
                vstd::multiset::lemma_insert_other_elements_unchanged(m, x, v);
            }
            assert(m.insert(x).filter(pred) =~= m.filter(pred));
        }
    }
}

/// Two sequences holding the same elements, however ordered, have the
/// same number of elements satisfying `pred`.
pub proof fn lemma_filter_len_permutation_invariant<A>(
    a: Seq<A>,
    b: Seq<A>,
    pred: spec_fn(A) -> bool,
)
    requires
        a.to_multiset() == b.to_multiset(),
    ensures
        a.filter(pred).len() == b.filter(pred).len(),
{
    lemma_filter_len_is_multiset_filter_len(a, pred);
    lemma_filter_len_is_multiset_filter_len(b, pred);
}

} // verus!
