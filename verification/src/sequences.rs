//! Facts about sequences that the rest of the crate leans on: the first place
//! of a value, and what a filter keeps.
use vstd::prelude::*;

verus! {

/// Whether `i` is the first place of `s` that holds `x`.
pub open spec fn is_first_index<A>(s: Seq<A>, x: A, i: int) -> bool {
    &&& 0 <= i < s.len()
    &&& s[i] == x
    &&& forall|j: int| 0 <= j < i ==> s[j] != x
}

/// The first place of `s` that holds `x` is what `index_of_first` names, and
/// the only place that `is_first_index` accepts.
pub proof fn lemma_first_index<A>(s: Seq<A>, x: A)
    ensures
        match s.index_of_first(x) {
            Some(i) => is_first_index(s, x, i),
            None => !s.contains(x),
        },
        forall|i: int| is_first_index(s, x, i) ==> s.index_of_first(x) == Some(i),
{
    s.index_of_first_ensures(x);
    assert forall|i: int| is_first_index(s, x, i) implies s.index_of_first(x) == Some(i) by {
        assert(s.contains(x));
        let k = s.index_of_first(x).unwrap();
        if k < i {
            assert(s[k] != x);
        }
        if i < k {
            assert(s[i] != x);
        }
    }
}

/// Filtering a sequence with one more element: the element is kept at the end
/// or dropped.
pub proof fn lemma_filter_push<A>(s: Seq<A>, x: A, pred: spec_fn(A) -> bool)
    ensures
        s.push(x).filter(pred) == if pred(x) {
            s.filter(pred).push(x)
        } else {
            s.filter(pred)
        },
{
    reveal(Seq::filter);
    assert(s.push(x).drop_last() =~= s);
}

/// What a filter keeps was there before and passes the test.
pub proof fn lemma_filter_keeps_only<A>(s: Seq<A>, pred: spec_fn(A) -> bool, x: A)
    requires
        s.filter(pred).contains(x),
    ensures
        s.contains(x),
        pred(x),
    decreases s.len(),
{
    reveal(Seq::filter);
    if s.len() > 0 {
        let kept = s.drop_last().filter(pred);
        if kept.contains(x) {
            lemma_filter_keeps_only(s.drop_last(), pred, x);
            let i = choose|i: int| 0 <= i < s.drop_last().len() && s.drop_last()[i] == x;
            assert(s[i] == x);
        } else {
            let i = choose|i: int| 0 <= i < s.filter(pred).len() && s.filter(pred)[i] == x;
            if pred(s.last()) {
                if i < kept.len() {
                    assert(kept[i] == x);
                }
                assert(s[s.len() - 1] == x);
            } else {
                assert(kept[i] == x);
            }
        }
    }
}

} // verus!
