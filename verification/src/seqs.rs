//! Sequence folds used by the contracts: concatenation of the pieces that
//! each element of a sequence contributes, and counting.
use vstd::prelude::*;

verus! {

/// The concatenation of all the sequences in `s`, in order.
pub open spec fn concat_all<A>(s: Seq<Seq<A>>) -> Seq<A>
    decreases s.len(),
{
    if s.len() == 0 {
        Seq::empty()
    } else {
        concat_all(s.drop_last()) + s.last()
    }
}

/// Appending one more piece appends it to the concatenation.
pub proof fn lemma_concat_all_push<A>(s: Seq<Seq<A>>, x: Seq<A>)
    ensures
        concat_all(s.push(x)) == concat_all(s) + x,
{
    assert(s.push(x).drop_last() =~= s);
}

/// The concatenation of the first `i + 1` pieces extends that of the first `i`.
pub proof fn lemma_concat_all_take<A>(s: Seq<Seq<A>>, i: int)
    requires
        0 <= i < s.len(),
    ensures
        concat_all(s.take(i + 1)) == concat_all(s.take(i)) + s[i],
{
    assert(s.take(i + 1) =~= s.take(i).push(s[i]));
    lemma_concat_all_push(s.take(i), s[i]);
}

/// A property that holds of every element of every piece holds of every
/// element of the concatenation.
pub proof fn lemma_concat_all_forall<A>(s: Seq<Seq<A>>, p: spec_fn(A) -> bool)
    requires
        forall|i: int, j: int| 0 <= i < s.len() && 0 <= j < s[i].len() ==> #[trigger] p(s[i][j]),
    ensures
        forall|k: int| 0 <= k < concat_all(s).len() ==> #[trigger] p(concat_all(s)[k]),
    decreases s.len(),
{
    if s.len() > 0 {
        let t = s.drop_last();
        assert forall|i: int, j: int| 0 <= i < t.len() && 0 <= j < t[i].len() implies #[trigger] p(
            t[i][j],
        ) by {
            assert(t[i] == s[i]);
        }
        lemma_concat_all_forall(t, p);
        let c = concat_all(s);
        assert forall|k: int| 0 <= k < c.len() implies #[trigger] p(c[k]) by {
            let n = concat_all(t).len();
            if k < n {
                assert(c[k] == concat_all(t)[k]);
            } else {
                assert(c[k] == s.last()[k - n]);
                assert(p(s[s.len() - 1][k - n]));
            }
        }
    }
}

/// Every element of every piece is an element of the concatenation.
pub proof fn lemma_concat_all_contains<A>(s: Seq<Seq<A>>, i: int, j: int)
    requires
        0 <= i < s.len(),
        0 <= j < s[i].len(),
    ensures
        concat_all(s).contains(s[i][j]),
    decreases s.len(),
{
    let t = s.drop_last();
    let c = concat_all(s);
    let n = concat_all(t).len();
    if i == s.len() - 1 {
        assert(c[n + j] == s[i][j]);
    } else {
        assert(t[i] == s[i]);
        lemma_concat_all_contains(t, i, j);
        let k = choose|k: int| 0 <= k < concat_all(t).len() && concat_all(t)[k] == t[i][j];
        assert(c[k] == concat_all(t)[k]);
    }
}

/// How many elements of `s` satisfy `p`.
pub open spec fn count_where<A>(s: Seq<A>, p: spec_fn(A) -> bool) -> nat
    decreases s.len(),
{
    if s.len() == 0 {
        0
    } else {
        count_where(s.drop_last(), p) + if p(s.last()) {
            1nat
        } else {
            0nat
        }
    }
}

/// Counting over the first `i + 1` elements adds the `i`-th one.
pub proof fn lemma_count_where_take<A>(s: Seq<A>, p: spec_fn(A) -> bool, i: int)
    requires
        0 <= i < s.len(),
    ensures
        count_where(s.take(i + 1), p) == count_where(s.take(i), p) + if p(s[i]) {
            1nat
        } else {
            0nat
        },
{
    assert(s.take(i + 1).drop_last() =~= s.take(i));
}

/// Appends to a vector, stated over the vector's deep view.
pub fn push_deep<T: DeepView>(v: &mut Vec<T>, x: T)
    ensures
        final(v).deep_view() == old(v).deep_view().push(x.deep_view()),
{
    let ghost before = v.deep_view();
    let ghost xv = x.deep_view();
    v.push(x);
    assert(v.deep_view() =~= before.push(xv));
}

} // verus!
