//! Counting in sequences: what taking one item out, or changing the order,
//! does to the number of items that meet a condition.

use vstd::prelude::*;

verus! {

/// Taking the item at `i` out of a sequence takes one off the number of
/// items that meet `p` if that item meets it, and nothing otherwise.
pub proof fn lemma_filter_len_without<A>(s: Seq<A>, i: int, p: spec_fn(A) -> bool)
    requires
        0 <= i < s.len(),
    ensures
        s.filter(p).len() == s.remove(i).filter(p).len() + if p(s[i]) { 1int } else { 0int },
    decreases s.len(),
{
    let front = s.drop_last();
    let last = s.last();
    assert(front.push(last) == s);
    front.lemma_filter_len_push(p, last);
    if i == s.len() - 1 {
        assert(s.remove(i) == front);
    } else {
        lemma_filter_len_without(front, i, p);
        assert(s.remove(i) == front.remove(i).push(last));
        front.remove(i).lemma_filter_len_push(p, last);
    }
}

/// Two sequences that hold the same items, each as often in one as in the
/// other, hold as many items that meet `p`.
pub proof fn lemma_filter_len_ignores_order<A>(a: Seq<A>, b: Seq<A>, p: spec_fn(A) -> bool)
    requires
        a.to_multiset() == b.to_multiset(),
    ensures
        a.filter(p).len() == b.filter(p).len(),
    decreases a.len(),
{
    vstd::seq_lib::to_multiset_len(a);
    vstd::seq_lib::to_multiset_len(b);
    if a.len() == 0 {
        assert(a == b);
    } else {
        let i = a.len() - 1;
        let last = a[i];
        vstd::seq_lib::to_multiset_contains(a, last);
        vstd::seq_lib::to_multiset_contains(b, last);
        let j = choose|j: int| 0 <= j < b.len() && b[j] == last;
        vstd::seq_lib::to_multiset_remove(a, i);
        vstd::seq_lib::to_multiset_remove(b, j);
        lemma_filter_len_ignores_order(a.remove(i), b.remove(j), p);
        lemma_filter_len_without(a, i, p);
        lemma_filter_len_without(b, j, p);
    }
}

} // verus!
