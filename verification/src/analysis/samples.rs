//! Pairing the records of a source neuron with those of a target neuron by
//! observation index, to form the samples a candidate is scored on.
//!
//! A target record takes part when it carries at least one finite error and a
//! finite activation; of several such records with one observation index the
//! last one listed counts. A source record forms a sample with that target
//! record when its own activation is finite and the target's average error is
//! finite. Samples come in source order.
use vstd::prelude::*;

verus! {

/// What pairing reads from one target record.
#[derive(Clone, Copy, Debug, PartialEq, Eq, Structural)]
pub struct TargetObservation {
    pub obs_index: u32,
    /// The record has a finite activation and at least one finite error.
    pub usable: bool,
    /// The average of its finite errors is finite.
    pub average_finite: bool,
}

/// What pairing reads from one source record.
#[derive(Clone, Copy, Debug, PartialEq, Eq, Structural)]
pub struct SourceObservation {
    pub obs_index: u32,
    /// The record's activation is finite.
    pub activation_finite: bool,
}

/// A sample: a source record and the target record it pairs with, by position.
#[derive(Clone, Copy, Debug, PartialEq, Eq, Structural)]
pub struct SamplePair {
    pub source: usize,
    pub target: usize,
}

/// The position of the last usable target record with observation index `obs`.
pub open spec fn last_usable_target(targets: Seq<TargetObservation>, obs: u32) -> Option<int>
    decreases targets.len(),
{
    if targets.len() == 0 {
        None
    } else if targets.last().usable && targets.last().obs_index == obs {
        Some(targets.len() - 1)
    } else {
        last_usable_target(targets.drop_last(), obs)
    }
}

/// The target record that source record `s` pairs with, if any.
pub open spec fn pairs_with(targets: Seq<TargetObservation>, s: SourceObservation) -> Option<int> {
    if !s.activation_finite {
        None
    } else {
        match last_usable_target(targets, s.obs_index) {
            Some(k) => if targets[k].average_finite {
                Some(k)
            } else {
                None
            },
            None => None,
        }
    }
}

/// The samples of the first `n` source records, in source order.
pub open spec fn sample_pairs(targets: Seq<TargetObservation>, sources: Seq<SourceObservation>, n: nat) -> Seq<SamplePair>
    decreases n,
{
    if n == 0 {
        Seq::empty()
    } else {
        let prev = sample_pairs(targets, sources, (n - 1) as nat);
        match pairs_with(targets, sources[n - 1]) {
            Some(k) => prev.push(SamplePair { source: (n - 1) as usize, target: k as usize }),
            None => prev,
        }
    }
}

proof fn lemma_last_usable_target_in_range(targets: Seq<TargetObservation>, obs: u32)
    ensures
        last_usable_target(targets, obs) matches Some(k) ==> 0 <= k < targets.len()
            && targets[k].usable && targets[k].obs_index == obs,
    decreases targets.len(),
{
    if targets.len() > 0 {
        lemma_last_usable_target_in_range(targets.drop_last(), obs);
    }
}

/// The position of the last usable target record with observation index `obs`.
fn find_last_usable(targets: &[TargetObservation], obs: u32) -> (r: Option<usize>)
    ensures
        match r {
            Some(k) => last_usable_target(targets@, obs) == Some(k as int),
            None => last_usable_target(targets@, obs) is None,
        },
{
    let mut j: usize = targets.len();
    assert(targets@.take(j as int) =~= targets@);
    while j > 0
        invariant
            j <= targets@.len(),
            last_usable_target(targets@, obs) == last_usable_target(targets@.take(j as int), obs),
        decreases j,
    {
        let t = targets[j - 1];
        if t.usable && t.obs_index == obs {
            assert(targets@.take(j as int).last() == t);
            return Some(j - 1);
        }
        assert(targets@.take(j as int).drop_last() =~= targets@.take(j - 1));
        j = j - 1;
    }
    None
}

/// The samples a source's records form with a target's records, in source order.
pub fn match_samples(targets: &[TargetObservation], sources: &[SourceObservation]) -> (r: Vec<SamplePair>)
    ensures
        r@ == sample_pairs(targets@, sources@, sources@.len()),
{
    let mut out: Vec<SamplePair> = Vec::new();
    let mut j: usize = 0;
    while j < sources.len()
        invariant
            j <= sources@.len(),
            out@ == sample_pairs(targets@, sources@, j as nat),
        decreases sources@.len() - j,
    {
        let s = sources[j];
        if s.activation_finite {
            match find_last_usable(targets, s.obs_index) {
                Some(k) => {
                    proof {
                        lemma_last_usable_target_in_range(targets@, s.obs_index);
                    }
                    if targets[k].average_finite {
                        out.push(SamplePair { source: j, target: k });
                    }
                },
                None => {},
            }
        }
        j = j + 1;
    }
    out
}

/// Every sample pairs records with the same observation index, from a finite
/// source activation and a usable target record with a finite average error,
/// and the samples come in strictly increasing source order.
pub proof fn lemma_samples_match_indices(
    targets: Seq<TargetObservation>,
    sources: Seq<SourceObservation>,
    n: nat,
)
    requires
        n <= sources.len(),
        n <= usize::MAX,
        targets.len() <= usize::MAX,
    ensures
        forall|i: int|
            0 <= i < sample_pairs(targets, sources, n).len() ==> {
                let p = #[trigger] sample_pairs(targets, sources, n)[i];
                &&& p.source < n
                &&& p.target < targets.len()
                &&& sources[p.source as int].obs_index == targets[p.target as int].obs_index
                &&& sources[p.source as int].activation_finite
                &&& targets[p.target as int].usable
                &&& targets[p.target as int].average_finite
            },
        forall|i: int, j: int|
            0 <= i < j < sample_pairs(targets, sources, n).len() ==> sample_pairs(targets, sources, n)[i].source
                < sample_pairs(targets, sources, n)[j].source,
    decreases n,
{
    if n > 0 {
        lemma_samples_match_indices(targets, sources, (n - 1) as nat);
        lemma_last_usable_target_in_range(targets, sources[n - 1].obs_index);
        let prev = sample_pairs(targets, sources, (n - 1) as nat);
        let cur = sample_pairs(targets, sources, n);
        match pairs_with(targets, sources[n - 1]) {
            Some(k) => {
                let q = SamplePair { source: (n - 1) as usize, target: k as usize };
                assert(cur == prev.push(q));
                assert forall|i: int| 0 <= i < cur.len() implies {
                    let p = #[trigger] cur[i];
                    &&& p.source < n
                    &&& p.target < targets.len()
                    &&& sources[p.source as int].obs_index == targets[p.target as int].obs_index
                    &&& sources[p.source as int].activation_finite
                    &&& targets[p.target as int].usable
                    &&& targets[p.target as int].average_finite
                } by {
                    if i < prev.len() {
                        assert(cur[i] == prev[i]);
                    } else {
                        assert(cur[i] == q);
                    }
                }
                assert forall|i: int, j: int| 0 <= i < j < cur.len() implies cur[i].source < cur[j].source by {
                    assert(cur[i] == prev[i]);
                    if j < prev.len() {
                        assert(cur[j] == prev[j]);
                    } else {
                        assert(prev[i].source < n - 1);
                    }
                }
            },
            None => {
                assert(cur == prev);
            },
        }
    }
}

} // verus!
