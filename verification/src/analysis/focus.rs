//! Checking the focus list of an analysis request: it must name at least one
//! neuron, and no neuron twice, so that each diagnostic maps back to one
//! requested target.
use vstd::prelude::*;
use vstd::string::StringExecFns;

use crate::text::{
    lemma_seq_lt_irreflexive, lemma_seq_lt_total, lemma_seq_lt_transitive, seq_lt,
    str_eq, str_lt,
};

verus! {

/// Whether the name at position `i` of `focus` already occurs before it.
pub open spec fn occurs_earlier(focus: Seq<String>, i: int) -> bool {
    exists|j: int| 0 <= j < i && (#[trigger] focus[j])@ == focus[i]@
}

/// Whether `name` occurs more than once in `focus`.
pub open spec fn is_repeated(focus: Seq<String>, name: Seq<char>) -> bool {
    exists|i: int| 0 <= i < focus.len() && (#[trigger] focus[i])@ == name && occurs_earlier(focus, i)
}

/// Whether no name occurs twice in `focus`.
pub open spec fn all_distinct(focus: Seq<String>) -> bool {
    forall|i: int, j: int| 0 <= j < i < focus.len() ==> (#[trigger] focus[j])@ != (#[trigger] focus[i])@
}

/// Whether `names` is strictly increasing in code-point order.
pub open spec fn strictly_sorted(names: Seq<String>) -> bool {
    forall|i: int, j: int| 0 <= i < j < names.len() ==> seq_lt((#[trigger] names[i])@, (#[trigger] names[j])@)
}

/// Whether some element of `names` is `name`.
pub open spec fn lists(names: Seq<String>, name: Seq<char>) -> bool {
    exists|k: int| 0 <= k < names.len() && (#[trigger] names[k])@ == name
}

/// `names` joined with `", "`.
pub open spec fn joined(names: Seq<String>) -> Seq<char>
    decreases names.len(),
{
    if names.len() == 0 {
        Seq::empty()
    } else if names.len() == 1 {
        names[0]@
    } else {
        joined(names.drop_last()) + ", "@ + names.last()@
    }
}

/// The message for an empty focus list.
pub open spec fn empty_focus_message(context: Seq<char>) -> Seq<char> {
    context + " needs at least one focus neuron. The Deno controller supplied an empty `focus_neurons` array, so there is nothing to analyse. Please fix the upstream request and retry after setting `NEAT_AI_DISCOVERY_VERBOSE=1` if you need extra logging."@
}

/// The message for a focus list that repeats the neurons `names`.
pub open spec fn duplicate_focus_message(context: Seq<char>, names: Seq<String>) -> Seq<char> {
    context + " received duplicate focus neurons ("@ + joined(names)
        + "). Each target must be unique so we can map diagnostics back to the Deno request. We are refusing to continue so the upstream behaviour can be corrected."@
}

/// Why a focus list was refused.
#[derive(Clone, Debug)]
pub enum FocusError {
    /// The list is empty.
    Empty { context: String },
    /// The list repeats these neurons: each once, in code-point order.
    Duplicates { context: String, names: Vec<String> },
}

/// `names` joined with `", "`.
fn join_names(names: &[String]) -> (r: String)
    ensures
        r@ == joined(names@),
{
    let mut out = String::new();
    let mut k: usize = 0;
    while k < names.len()
        invariant
            k <= names@.len(),
            out@ == joined(names@.take(k as int)),
        decreases names@.len() - k,
    {
        proof {
            assert(names@.take(k + 1).drop_last() =~= names@.take(k as int));
        }
        if k > 0 {
            out.append(", ");
        }
        out.append(names[k].as_str());
        proof {
            if k == 0 {
                assert(out@ =~= names@.take(1)[0]@);
            } else {
                assert(out@ =~= joined(names@.take(k as int)) + ", "@ + names@.take(k + 1).last()@);
            }
        }
        k = k + 1;
    }
    assert(names@.take(names@.len() as int) =~= names@);
    out
}

impl FocusError {
    /// The message that explains the refusal.
    pub fn message(&self) -> (r: String)
        ensures
            match self {
                FocusError::Empty { context } => r@ == empty_focus_message(context@),
                FocusError::Duplicates { context, names } => r@ == duplicate_focus_message(
                    context@,
                    names@,
                ),
            },
    {
        let mut out = String::new();
        match self {
            FocusError::Empty { context } => {
                out.append(context.as_str());
                out.append(
                    " needs at least one focus neuron. The Deno controller supplied an empty `focus_neurons` array, so there is nothing to analyse. Please fix the upstream request and retry after setting `NEAT_AI_DISCOVERY_VERBOSE=1` if you need extra logging.",
                );
            },
            FocusError::Duplicates { context, names } => {
                out.append(context.as_str());
                out.append(" received duplicate focus neurons (");
                let list = join_names(names.as_slice());
                out.append(list.as_str());
                out.append(
                    "). Each target must be unique so we can map diagnostics back to the Deno request. We are refusing to continue so the upstream behaviour can be corrected.",
                );
            },
        }
        out
    }
}

/// Inserts `x` into the strictly sorted `names`, unless it is already there.
fn insert_sorted_unique(names: &mut Vec<String>, x: String)
    requires
        strictly_sorted(old(names)@),
    ensures
        strictly_sorted(final(names)@),
        forall|y: Seq<char>| lists(final(names)@, y) <==> (lists(old(names)@, y) || y == x@),
{
    let mut p: usize = 0;
    while p < names.len() && str_lt(names[p].as_str(), x.as_str())
        invariant
            p <= names@.len(),
            forall|k: int| 0 <= k < p ==> seq_lt((#[trigger] names@[k])@, x@),
        decreases names@.len() - p,
    {
        p = p + 1;
    }
    if p < names.len() && str_eq(names[p].as_str(), x.as_str()) {
        assert(lists(names@, x@));
        return;
    }
    let ghost before = names@;
    proof {
        if p < before.len() {
            lemma_seq_lt_total(before[p as int]@, x@);
            assert forall|j: int| p <= j < before.len() implies seq_lt(x@, (#[trigger] before[j])@) by {
                if j > p {
                    lemma_seq_lt_transitive(x@, before[p as int]@, before[j]@);
                }
            }
        }
    }
    names.insert(p, x);
    proof {
        let after = names@;
        assert(after =~= before.insert(p as int, x));
        assert forall|i: int, j: int| 0 <= i < j < after.len() implies seq_lt(
            (#[trigger] after[i])@,
            (#[trigger] after[j])@,
        ) by {
            if j < p {
            } else if j == p {
            } else if i < p {
                lemma_seq_lt_transitive(after[i]@, x@, after[j]@);
            } else if i == p {
            } else {
                assert(after[i] == before[i - 1] && after[j] == before[j - 1]);
            }
        }
        assert forall|y: Seq<char>| lists(after, y) <==> (lists(before, y) || y == x@) by {
            if lists(after, y) {
                let k = choose|k: int| 0 <= k < after.len() && (#[trigger] after[k])@ == y;
                if k < p {
                    assert(before[k] == after[k]);
                } else if k > p {
                    assert(before[k - 1] == after[k]);
                }
            }
            if lists(before, y) {
                let k = choose|k: int| 0 <= k < before.len() && (#[trigger] before[k])@ == y;
                if k < p {
                    assert(after[k] == before[k]);
                } else {
                    assert(after[k + 1] == before[k]);
                }
            }
            if y == x@ {
                assert(after[p as int]@ == y);
            }
        }
    }
}

/// Whether the name at position `i` of `focus` already occurs before it.
fn seen_before(focus: &[String], i: usize) -> (r: bool)
    requires
        i < focus@.len(),
    ensures
        r == occurs_earlier(focus@, i as int),
{
    let mut j: usize = 0;
    while j < i
        invariant
            i < focus@.len(),
            j <= i,
            forall|k: int| 0 <= k < j ==> (#[trigger] focus@[k])@ != focus@[i as int]@,
        decreases i - j,
    {
        if str_eq(focus[j].as_str(), focus[i].as_str()) {
            return true;
        }
        j = j + 1;
    }
    false
}

/// The focus list, checked: refused when empty or when a neuron occurs twice;
/// otherwise every entry, in order.
pub fn require_unique_focus<'a>(focus: &'a [String], context: &str) -> (r: Result<
    Vec<&'a String>,
    FocusError,
>)
    ensures
        focus@.len() == 0 ==> (r matches Err(FocusError::Empty { context: c }) && c@ == context@),
        focus@.len() > 0 && all_distinct(focus@) ==> (r matches Ok(v) && v@.len() == focus@.len()
            && forall|i: int| 0 <= i < focus@.len() ==> *(#[trigger] v@[i]) == focus@[i]),
        focus@.len() > 0 && !all_distinct(focus@) ==> (r matches Err(
            FocusError::Duplicates { context: c, names },
        ) && c@ == context@ && strictly_sorted(names@) && forall|x: Seq<char>|
            lists(names@, x) <==> is_repeated(focus@, x)),
{
    if focus.len() == 0 {
        return Err(FocusError::Empty { context: context.to_owned() });
    }
    let mut unique: Vec<&'a String> = Vec::new();
    let mut names: Vec<String> = Vec::new();
    let mut i: usize = 0;
    while i < focus.len()
        invariant
            i <= focus@.len(),
            strictly_sorted(names@),
            forall|x: Seq<char>| lists(names@, x) <==> is_repeated(focus@.take(i as int), x),
            all_distinct(focus@.take(i as int)) ==> (unique@.len() == i && forall|k: int|
                0 <= k < i ==> *(#[trigger] unique@[k]) == focus@[k]),
            all_distinct(focus@.take(i as int)) <==> names@.len() == 0,
        decreases focus@.len() - i,
    {
        let ghost prev = focus@.take(i as int);
        let ghost next = focus@.take(i + 1);
        let ghost old_names = names@;
        let repeated = seen_before(focus, i);
        proof {
            assert(next =~= prev.push(focus@[i as int]));
            assert forall|x: Seq<char>| is_repeated(next, x) <==> (is_repeated(prev, x) || (repeated
                && x == focus@[i as int]@)) by {
                if is_repeated(next, x) {
                    let a = choose|a: int| 0 <= a < next.len() && (#[trigger] next[a])@ == x && occurs_earlier(next, a);
                    let b = choose|b: int| 0 <= b < a && (#[trigger] next[b])@ == next[a]@;
                    if a < i {
                        assert(prev[a] == next[a] && prev[b] == next[b]);
                        assert(occurs_earlier(prev, a));
                    } else {
                        assert(focus@[b] == next[b]);
                    }
                }
                if is_repeated(prev, x) {
                    let a = choose|a: int| 0 <= a < prev.len() && (#[trigger] prev[a])@ == x && occurs_earlier(prev, a);
                    let b = choose|b: int| 0 <= b < a && (#[trigger] prev[b])@ == prev[a]@;
                    assert(next[a] == prev[a] && next[b] == prev[b]);
                    assert(occurs_earlier(next, a));
                }
                if repeated && x == focus@[i as int]@ {
                    let b = choose|b: int| 0 <= b < i && (#[trigger] focus@[b])@ == focus@[i as int]@;
                    assert(next[b] == focus@[b]);
                    assert(next[i as int] == focus@[i as int]);
                    assert(occurs_earlier(next, i as int));
                }
            }
            assert(all_distinct(next) <==> (all_distinct(prev) && !repeated)) by {
                if all_distinct(next) {
                    assert forall|a: int, b: int| 0 <= b < a < prev.len() implies (#[trigger] prev[b])@
                        != (#[trigger] prev[a])@ by {
                        assert(next[a] == prev[a] && next[b] == prev[b]);
                    }
                    if repeated {
                        let b = choose|b: int| 0 <= b < i && (#[trigger] focus@[b])@ == focus@[i as int]@;
                        assert(next[b] == focus@[b]);
                        assert(next[i as int] == focus@[i as int]);
                    }
                }
                if all_distinct(prev) && !repeated {
                    assert forall|a: int, b: int| 0 <= b < a < next.len() implies (#[trigger] next[b])@
                        != (#[trigger] next[a])@ by {
                        if a < i {
                            assert(next[a] == prev[a] && next[b] == prev[b]);
                        } else {
                            assert(next[b] == focus@[b]);
                        }
                    }
                }
            }
        }
        if repeated {
            insert_sorted_unique(&mut names, focus[i].clone());
            proof {
                assert(lists(names@, focus@[i as int]@));
            }
        } else {
            unique.push(&focus[i]);
        }
        proof {
            if names@.len() == 0 {
                assert(!repeated);
                assert forall|x: Seq<char>| !is_repeated(prev, x) by {
                    if is_repeated(prev, x) {
                        assert(lists(old_names, x));
                    }
                }
            }
            if !all_distinct(next) {
                if !repeated {
                    assert(old_names.len() > 0);
                    assert(lists(old_names, old_names[0]@));
                    assert(lists(names@, old_names[0]@));
                }
            }
        }
        i = i + 1;
    }
    assert(focus@.take(focus@.len() as int) =~= focus@);
    if names.len() > 0 {
        return Err(FocusError::Duplicates { context: context.to_owned(), names });
    }
    Ok(unique)
}

/// A name is refused as a duplicate exactly when it occurs twice, and a list
/// of distinct names is never refused for duplicates.
pub proof fn lemma_distinct_means_no_repeats(focus: Seq<String>)
    ensures
        all_distinct(focus) <==> forall|x: Seq<char>| !is_repeated(focus, x),
{
    if all_distinct(focus) {
        assert forall|x: Seq<char>| !is_repeated(focus, x) by {
            if is_repeated(focus, x) {
                let a = choose|a: int| 0 <= a < focus.len() && (#[trigger] focus[a])@ == x && occurs_earlier(focus, a);
                let b = choose|b: int| 0 <= b < a && (#[trigger] focus[b])@ == focus[a]@;
            }
        }
    } else {
        let (a, b) = choose|a: int, b: int| 0 <= b < a < focus.len() && (#[trigger] focus[b])@ == (#[trigger] focus[a])@;
        assert(occurs_earlier(focus, a));
        assert(is_repeated(focus, focus[a]@));
    }
}

} // verus!
