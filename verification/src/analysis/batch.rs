//! Putting the results of a batched evaluation back in request order.
//!
//! A batch evaluates only the non-empty sample sets; each empty set gets no
//! result (the caller's default), and the computed results fill the non-empty
//! slots in order.
use vstd::prelude::*;

verus! {

/// How many of the first `i` flags mark a non-empty set.
pub open spec fn non_empty_before(empty_flags: Seq<bool>, i: int) -> nat
    decreases i,
{
    if i <= 0 {
        0
    } else if !empty_flags[i - 1] {
        non_empty_before(empty_flags, i - 1) + 1
    } else {
        non_empty_before(empty_flags, i - 1)
    }
}

/// The result for slot `i`: nothing for an empty set, else the computed
/// result whose rank is the number of non-empty sets before it, if there is one.
pub open spec fn merged_slot<T>(empty_flags: Seq<bool>, computed: Seq<T>, i: int) -> Option<T> {
    if empty_flags[i] {
        None
    } else if non_empty_before(empty_flags, i) < computed.len() {
        Some(computed[non_empty_before(empty_flags, i) as int])
    } else {
        None
    }
}

proof fn lemma_non_empty_before_bounded(empty_flags: Seq<bool>, i: int)
    requires
        0 <= i <= empty_flags.len(),
    ensures
        non_empty_before(empty_flags, i) <= i,
    decreases i,
{
    if i > 0 {
        lemma_non_empty_before_bounded(empty_flags, i - 1);
    }
}

/// One result per flag, in flag order: `None` for an empty set, and the
/// computed results, in order, for the non-empty ones (`None` once they run out).
pub fn merge_batch_results<T>(empty_flags: &[bool], computed: Vec<T>) -> (r: Vec<Option<T>>)
    ensures
        r@.len() == empty_flags@.len(),
        forall|i: int| 0 <= i < empty_flags@.len() ==> (#[trigger] r@[i]) == merged_slot(empty_flags@, computed@, i),
{
    let ghost original = computed@;
    let n: usize = computed.len();
    let mut source = computed;
    let mut stack: Vec<T> = Vec::new();
    while source.len() > 0
        invariant
            n == original.len(),
            source@.len() + stack@.len() == n,
            forall|k: int| 0 <= k < source@.len() ==> (#[trigger] source@[k]) == original[k],
            forall|k: int| 0 <= k < stack@.len() ==> (#[trigger] stack@[k]) == original[n - 1 - k],
        decreases source@.len(),
    {
        let item = source.pop().unwrap();
        stack.push(item);
    }
    let mut results: Vec<Option<T>> = Vec::new();
    let mut used: usize = 0;
    let mut i: usize = 0;
    while i < empty_flags.len()
        invariant
            n == original.len(),
            i <= empty_flags@.len(),
            used <= n,
            used == if non_empty_before(empty_flags@, i as int) < n {
                non_empty_before(empty_flags@, i as int)
            } else {
                n as nat
            },
            stack@.len() == n - used,
            forall|k: int| 0 <= k < stack@.len() ==> (#[trigger] stack@[k]) == original[n - 1 - k],
            results@.len() == i,
            forall|k: int| 0 <= k < i ==> (#[trigger] results@[k]) == merged_slot(empty_flags@, original, k),
        decreases empty_flags@.len() - i,
    {
        if empty_flags[i] {
            results.push(None);
        } else if used < n {
            let item = stack.pop().unwrap();
            results.push(Some(item));
            used = used + 1;
        } else {
            results.push(None);
        }
        i = i + 1;
    }
    results
}

/// Every computed result lands in the slot of its non-empty set: the `k`-th
/// non-empty slot holds the `k`-th computed result.
pub proof fn lemma_merge_keeps_order<T>(empty_flags: Seq<bool>, computed: Seq<T>, i: int)
    requires
        0 <= i < empty_flags.len(),
        !empty_flags[i],
        non_empty_before(empty_flags, i) < computed.len(),
    ensures
        merged_slot(empty_flags, computed, i) == Some(computed[non_empty_before(empty_flags, i) as int]),
        non_empty_before(empty_flags, i + 1) == non_empty_before(empty_flags, i) + 1,
{
    lemma_non_empty_before_bounded(empty_flags, i);
}

} // verus!
