//! Selecting positions of a sequence by a predicate.
use vstd::prelude::*;

verus! {

/// The positions `i < n` that satisfy `pred`, in increasing order.
pub open spec fn positions_where(n: nat, pred: spec_fn(int) -> bool) -> Seq<usize>
    decreases n,
{
    if n == 0 {
        Seq::empty()
    } else if pred(n - 1) {
        positions_where((n - 1) as nat, pred).push((n - 1) as usize)
    } else {
        positions_where((n - 1) as nat, pred)
    }
}

/// A position is selected exactly when it is in range and satisfies `pred`,
/// and the selection is strictly increasing.
pub proof fn lemma_positions_where(n: nat, pred: spec_fn(int) -> bool)
    requires
        n <= usize::MAX,
    ensures
        forall|i: int| 0 <= i < n ==> (positions_where(n, pred).contains(i as usize) <==> #[trigger] pred(i)),
        forall|k: int|
            0 <= k < positions_where(n, pred).len() ==> #[trigger] positions_where(n, pred)[k] < n,
        forall|k: int, l: int|
            0 <= k < l < positions_where(n, pred).len() ==> positions_where(n, pred)[k]
                < positions_where(n, pred)[l],
    decreases n,
{
    if n > 0 {
        lemma_positions_where((n - 1) as nat, pred);
        let prev = positions_where((n - 1) as nat, pred);
        let cur = positions_where(n, pred);
        assert forall|i: int| 0 <= i < n implies (cur.contains(i as usize) <==> #[trigger] pred(
            i,
        )) by {
            if pred(n - 1) {
                assert(cur == prev.push((n - 1) as usize));
                if i < n - 1 {
                    if cur.contains(i as usize) {
                        let k = choose|k: int| 0 <= k < cur.len() && #[trigger] cur[k] == i as usize;
                        assert(k < prev.len());
                        assert(prev[k] == i as usize);
                    }
                    if prev.contains(i as usize) {
                        let k = choose|k: int| 0 <= k < prev.len() && #[trigger] prev[k] == i as usize;
                        assert(cur[k] == i as usize);
                    }
                } else {
                    assert(cur[prev.len() as int] == (n - 1) as usize);
                }
            } else {
                assert(cur == prev);
                if i == n - 1 && prev.contains(i as usize) {
                    let k = choose|k: int| 0 <= k < prev.len() && #[trigger] prev[k] == i as usize;
                    assert(prev[k] < n - 1);
                }
            }
        }
    }
}

/// Every position below `n` is selected when the predicate always holds.
pub proof fn lemma_positions_where_all(n: nat, pred: spec_fn(int) -> bool)
    requires
        n <= usize::MAX,
        forall|i: int| 0 <= i < n ==> #[trigger] pred(i),
    ensures
        positions_where(n, pred) == Seq::new(n, |i: int| i as usize),
    decreases n,
{
    if n > 0 {
        lemma_positions_where_all((n - 1) as nat, pred);
        assert(positions_where(n, pred) =~= Seq::new(n, |i: int| i as usize));
    }
}

} // verus!
