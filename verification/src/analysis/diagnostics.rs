//! Per-target diagnostics of an analysis pass, and why a target produced no
//! candidate.
//!
//! Each book holds one entry per requested target. Every update names a target
//! and changes that target's entry only; an update for a target the book does
//! not hold changes nothing. A target that produced a candidate has no
//! no-candidate reason.
use vstd::prelude::*;

use crate::analysis::focus::lists;
use crate::text::str_eq;

verus! {

/// Why a candidate synapse was rejected.
#[derive(Clone, Copy, Debug, PartialEq, Eq, Structural)]
pub enum RejectionReason {
    NoSamples,
    ZeroImprovement,
    BelowThreshold,
}

/// The text that describes a rejection reason.
pub open spec fn rejection_text(reason: RejectionReason) -> Seq<char> {
    match reason {
        RejectionReason::NoSamples => "no overlapping discovery samples"@,
        RejectionReason::ZeroImprovement => "no consistent improvement in GPU stats"@,
        RejectionReason::BelowThreshold => "expected improvement below threshold"@,
    }
}

impl RejectionReason {
    /// The text that describes this reason.
    pub fn description(&self) -> (r: &'static str)
        ensures
            r@ == rejection_text(*self),
    {
        match self {
            RejectionReason::NoSamples => "no overlapping discovery samples",
            RejectionReason::ZeroImprovement => "no consistent improvement in GPU stats",
            RejectionReason::BelowThreshold => "expected improvement below threshold",
        }
    }
}

/// Why synapse analysis found no candidate for a target.
#[derive(Clone, Copy, Debug, PartialEq, Eq, Structural)]
pub enum SynapseNoCandidateReason {
    NoEligibleSources,
    NoDiagnostics,
    NoSamples,
    ZeroImprovement,
    BelowThreshold,
}

/// Why neuron analysis found no candidate for a target.
#[derive(Clone, Copy, Debug, PartialEq, Eq, Structural)]
pub enum NeuronNoCandidateReason {
    NoEligibleSources,
    NoDiagnostics,
    NoSamples,
    NotEnoughActivations,
    WeightDegenerate,
    BelowThreshold,
    /// A hidden neuron: its back-propagated error does not reliably predict
    /// the output error, so it is not a target.
    HiddenNeuronFiltered,
    /// An input neuron: an observation source, not a computation node.
    InputNeuronFiltered,
}

/// Whether `new` is `old` with `f` applied to each entry that `named` picks.
pub open spec fn updates_named<E>(
    old: Seq<E>,
    new: Seq<E>,
    named: spec_fn(E) -> bool,
    f: spec_fn(E) -> E,
) -> bool {
    &&& new.len() == old.len()
    &&& forall|i: int|
        0 <= i < old.len() ==> (#[trigger] new[i]) == if named(old[i]) {
            f(old[i])
        } else {
            old[i]
        }
}

/// An update that picks no entry changes nothing.
pub proof fn lemma_update_of_unknown_target_changes_nothing<E>(
    old: Seq<E>,
    new: Seq<E>,
    named: spec_fn(E) -> bool,
    f: spec_fn(E) -> E,
)
    requires
        updates_named(old, new, named, f),
        forall|i: int| 0 <= i < old.len() ==> !named(#[trigger] old[i]),
    ensures
        new == old,
{
    assert(new =~= old);
}

// ---------------------------------------------------------------------------
// Synapse analysis
// ---------------------------------------------------------------------------

/// The best-ranked rejected candidate of a synapse target, as far as it is
/// plain values: why it was rejected, its source and its counts.
#[derive(Debug)]
pub struct BestRejection {
    pub reason: RejectionReason,
    pub source_uuid: String,
    pub sample_count: usize,
    pub source_record_count: usize,
    pub improved_count: u32,
    pub worsened_count: u32,
}

/// Whether two rejections record the same reason, source and counts.
pub open spec fn same_rejection(a: BestRejection, b: BestRejection) -> bool {
    &&& a.reason == b.reason
    &&& a.source_uuid@ == b.source_uuid@
    &&& a.sample_count == b.sample_count
    &&& a.source_record_count == b.source_record_count
    &&& a.improved_count == b.improved_count
    &&& a.worsened_count == b.worsened_count
}

/// A copy of a rejection.
fn copy_rejection(b: &BestRejection) -> (r: BestRejection)
    ensures
        same_rejection(r, *b),
{
    BestRejection {
        reason: b.reason,
        source_uuid: b.source_uuid.clone(),
        sample_count: b.sample_count,
        source_record_count: b.source_record_count,
        improved_count: b.improved_count,
        worsened_count: b.worsened_count,
    }
}

/// What synapse analysis has recorded about one target.
#[derive(Debug)]
pub struct TargetDiagnosticEntry {
    pub target_uuid: String,
    pub target_record_count: usize,
    pub evaluated_candidates: u32,
    pub candidates_with_samples: u32,
    pub total_eligible_sources: u32,
    pub input_neuron_count: u32,
    pub already_connected_count: u32,
    pub record_load_failures: u32,
    pub had_candidate: bool,
    /// The best-ranked rejection recorded so far.
    pub best_rejection: Option<BestRejection>,
}

/// A synapse entry with nothing recorded yet.
pub open spec fn fresh_target_entry(e: TargetDiagnosticEntry) -> bool {
    &&& e.target_record_count == 0
    &&& e.evaluated_candidates == 0
    &&& e.candidates_with_samples == 0
    &&& e.total_eligible_sources == 0
    &&& e.input_neuron_count == 0
    &&& e.already_connected_count == 0
    &&& e.record_load_failures == 0
    &&& !e.had_candidate
    &&& e.best_rejection is None
}

/// Why synapse analysis found no candidate for the target of `e`; `None`
/// when it found one.
pub open spec fn synapse_no_candidate_reason(e: TargetDiagnosticEntry) -> Option<SynapseNoCandidateReason> {
    if e.had_candidate {
        None
    } else if e.total_eligible_sources == 0 && e.evaluated_candidates == 0 {
        Some(SynapseNoCandidateReason::NoEligibleSources)
    } else if e.total_eligible_sources > 0 && e.already_connected_count == e.total_eligible_sources
        && e.evaluated_candidates == 0 {
        Some(SynapseNoCandidateReason::NoEligibleSources)
    } else {
        match e.best_rejection {
            Some(b) => match b.reason {
                RejectionReason::NoSamples => Some(SynapseNoCandidateReason::NoSamples),
                RejectionReason::ZeroImprovement => Some(SynapseNoCandidateReason::ZeroImprovement),
                RejectionReason::BelowThreshold => Some(SynapseNoCandidateReason::BelowThreshold),
            },
            None => Some(SynapseNoCandidateReason::NoDiagnostics),
        }
    }
}

/// Whether the summary of `e` reports its best rejection: the target has no
/// candidate, had eligible sources that were not all connected or were
/// evaluated, and a rejection was recorded.
pub open spec fn synapse_summary_has_detail(e: TargetDiagnosticEntry) -> bool {
    &&& !e.had_candidate
    &&& !(e.total_eligible_sources == 0 && e.evaluated_candidates == 0)
    &&& !(e.total_eligible_sources > 0 && e.already_connected_count == e.total_eligible_sources
        && e.evaluated_candidates == 0)
    &&& e.best_rejection is Some
}

impl TargetDiagnosticEntry {
    /// An entry for `target_uuid` with nothing recorded.
    pub fn new(target_uuid: &str) -> (r: TargetDiagnosticEntry)
        ensures
            r.target_uuid@ == target_uuid@,
            fresh_target_entry(r),
    {
        TargetDiagnosticEntry {
            target_uuid: target_uuid.to_owned(),
            target_record_count: 0,
            evaluated_candidates: 0,
            candidates_with_samples: 0,
            total_eligible_sources: 0,
            input_neuron_count: 0,
            already_connected_count: 0,
            record_load_failures: 0,
            had_candidate: false,
            best_rejection: None,
        }
    }

    /// Why synapse analysis found no candidate for this target.
    pub fn no_candidate_reason(&self) -> (r: Option<SynapseNoCandidateReason>)
        ensures
            r == synapse_no_candidate_reason(*self),
    {
        if self.had_candidate {
            None
        } else if self.total_eligible_sources == 0 && self.evaluated_candidates == 0 {
            Some(SynapseNoCandidateReason::NoEligibleSources)
        } else if self.total_eligible_sources > 0 && self.already_connected_count
            == self.total_eligible_sources && self.evaluated_candidates == 0 {
            Some(SynapseNoCandidateReason::NoEligibleSources)
        } else {
            match &self.best_rejection {
                Some(b) => match b.reason {
                    RejectionReason::NoSamples => Some(SynapseNoCandidateReason::NoSamples),
                    RejectionReason::ZeroImprovement => Some(
                        SynapseNoCandidateReason::ZeroImprovement,
                    ),
                    RejectionReason::BelowThreshold => Some(
                        SynapseNoCandidateReason::BelowThreshold,
                    ),
                },
                None => Some(SynapseNoCandidateReason::NoDiagnostics),
            }
        }
    }
}

/// The no-candidate summary of one synapse target.
#[derive(Debug)]
pub struct SynapseNoCandidateSummary {
    pub target_uuid: String,
    pub reason: SynapseNoCandidateReason,
    pub evaluated_candidates: u32,
    pub candidates_with_samples: u32,
    pub target_record_count: usize,
    /// The best rejection, where the reason comes from it.
    pub rejection: Option<BestRejection>,
}

/// Whether `s` summarises the entry `e` of a target without candidate.
pub open spec fn summarises_target(s: SynapseNoCandidateSummary, e: TargetDiagnosticEntry) -> bool {
    &&& synapse_no_candidate_reason(e) == Some(s.reason)
    &&& s.target_uuid@ == e.target_uuid@
    &&& s.evaluated_candidates == e.evaluated_candidates
    &&& s.candidates_with_samples == e.candidates_with_samples
    &&& s.target_record_count == e.target_record_count
    &&& if synapse_summary_has_detail(e) {
        s.rejection matches Some(r) && e.best_rejection matches Some(b) && same_rejection(r, b)
    } else {
        s.rejection is None
    }
}

/// The entries of targets without candidate.
pub open spec fn without_candidate(entries: Seq<TargetDiagnosticEntry>) -> Seq<TargetDiagnosticEntry> {
    entries.filter(|e: TargetDiagnosticEntry| !e.had_candidate)
}

/// Entries picked by target name.
pub open spec fn target_named(u: Seq<char>) -> spec_fn(TargetDiagnosticEntry) -> bool {
    |e: TargetDiagnosticEntry| e.target_uuid@ == u
}

/// Whether some entry is the entry of target `u`.
pub open spec fn holds_target(entries: Seq<TargetDiagnosticEntry>, u: Seq<char>) -> bool {
    exists|i: int| 0 <= i < entries.len() && (#[trigger] entries[i]).target_uuid@ == u
}

/// Whether no two entries name the same target.
pub open spec fn distinct_targets(entries: Seq<TargetDiagnosticEntry>) -> bool {
    forall|i: int, j: int|
        0 <= i < j < entries.len() ==> (#[trigger] entries[i]).target_uuid@ != (#[trigger] entries[j]).target_uuid@
}

/// What synapse analysis has recorded about each requested target.
pub struct TargetDiagnostics {
    entries: Vec<TargetDiagnosticEntry>,
}

impl View for TargetDiagnostics {
    type V = Seq<TargetDiagnosticEntry>;

    closed spec fn view(&self) -> Seq<TargetDiagnosticEntry> {
        self.entries@
    }
}

impl TargetDiagnostics {
    /// Well-formedness: no two entries name the same target.
    pub open spec fn wf(&self) -> bool {
        distinct_targets(self@)
    }

    /// A book with one fresh entry for each distinct target.
    pub fn new(targets: &[String]) -> (r: TargetDiagnostics)
        ensures
            r.wf(),
            forall|i: int| 0 <= i < r@.len() ==> fresh_target_entry(#[trigger] r@[i]),
            forall|u: Seq<char>| #[trigger] holds_target(r@, u) <==> lists(targets@, u),
    {
        let mut entries: Vec<TargetDiagnosticEntry> = Vec::new();
        let mut k: usize = 0;
        while k < targets.len()
            invariant
                k <= targets@.len(),
                distinct_targets(entries@),
                forall|i: int| 0 <= i < entries@.len() ==> fresh_target_entry(#[trigger] entries@[i]),
                forall|u: Seq<char>| #[trigger] holds_target(entries@, u) <==> lists(targets@.take(k as int), u),
            decreases targets@.len() - k,
        {
            let t = targets[k].as_str();
            let ghost before = entries@;
            let known = find_target(&entries, t);
            if known.is_none() {
                entries.push(TargetDiagnosticEntry::new(t));
            }
            proof {
                assert forall|u: Seq<char>| #[trigger] holds_target(entries@, u) <==> (holds_target(before, u) || u == t@) by {
                    if holds_target(before, u) {
                        let i = choose|i: int| 0 <= i < before.len() && (#[trigger] before[i]).target_uuid@ == u;
                        assert(entries@[i] == before[i]);
                    }
                    if holds_target(entries@, u) {
                        let i = choose|i: int| 0 <= i < entries@.len() && (#[trigger] entries@[i]).target_uuid@ == u;
                        if i < before.len() {
                            assert(entries@[i] == before[i]);
                        }
                    }
                    if u == t@ {
                        match known {
                            Some(j) => {
                                assert(entries@[j as int].target_uuid@ == u);
                            },
                            None => {
                                assert(entries@[entries@.len() - 1].target_uuid@ == u);
                            },
                        }
                    }
                }
                let prev = targets@.take(k as int);
                let next = targets@.take(k + 1);
                assert(next =~= prev.push(targets@[k as int]));
                assert forall|u: Seq<char>| #[trigger] holds_target(entries@, u) <==> lists(next, u) by {
                    if lists(prev, u) {
                        let j = choose|j: int| 0 <= j < prev.len() && (#[trigger] prev[j])@ == u;
                        assert(next[j] == prev[j]);
                    }
                    if lists(next, u) {
                        let j = choose|j: int| 0 <= j < next.len() && (#[trigger] next[j])@ == u;
                        if j < k {
                            assert(prev[j] == next[j]);
                        }
                    }
                    if u == targets@[k as int]@ {
                        assert(next[k as int]@ == u);
                    }
                }
            }
            k = k + 1;
        }
        assert(targets@.take(targets@.len() as int) =~= targets@);
        TargetDiagnostics { entries }
    }

    /// The entries, one per target.
    pub fn entries(&self) -> (r: &[TargetDiagnosticEntry])
        ensures
            r@ == self@,
    {
        self.entries.as_slice()
    }

    /// Sets the number of records of target `u`.
    pub fn set_target_record_count(&mut self, u: &str, count: usize)
        requires
            old(self).wf(),
        ensures
            final(self).wf(),
            updates_named(
                old(self)@,
                final(self)@,
                target_named(u@),
                |e: TargetDiagnosticEntry| TargetDiagnosticEntry { target_record_count: count, ..e },
            ),
    {
        match find_target(&self.entries, u) {
            Some(k) => {
                self.entries[k].target_record_count = count;
            },
            None => {},
        }
    }

    /// Sets the number of eligible sources of target `u`.
    pub fn set_total_eligible_sources(&mut self, u: &str, count: u32)
        requires
            old(self).wf(),
        ensures
            final(self).wf(),
            updates_named(
                old(self)@,
                final(self)@,
                target_named(u@),
                |e: TargetDiagnosticEntry| TargetDiagnosticEntry { total_eligible_sources: count, ..e },
            ),
    {
        match find_target(&self.entries, u) {
            Some(k) => {
                self.entries[k].total_eligible_sources = count;
            },
            None => {},
        }
    }

    /// Sets how many eligible sources of target `u` are input neurons.
    pub fn set_input_neuron_count(&mut self, u: &str, count: u32)
        requires
            old(self).wf(),
        ensures
            final(self).wf(),
            updates_named(
                old(self)@,
                final(self)@,
                target_named(u@),
                |e: TargetDiagnosticEntry| TargetDiagnosticEntry { input_neuron_count: count, ..e },
            ),
    {
        match find_target(&self.entries, u) {
            Some(k) => {
                self.entries[k].input_neuron_count = count;
            },
            None => {},
        }
    }

    /// Counts one eligible source of target `u` that is already connected.
    pub fn record_already_connected(&mut self, u: &str)
        requires
            old(self).wf(),
            forall|i: int|
                0 <= i < old(self)@.len() && (#[trigger] old(self)@[i]).target_uuid@ == u@
                    ==> old(self)@[i].already_connected_count < u32::MAX,
        ensures
            final(self).wf(),
            updates_named(
                old(self)@,
                final(self)@,
                target_named(u@),
                |e: TargetDiagnosticEntry|
                    TargetDiagnosticEntry {
                        already_connected_count: (e.already_connected_count + 1) as u32,
                        ..e
                    },
            ),
    {
        match find_target(&self.entries, u) {
            Some(k) => {
                self.entries[k].already_connected_count = self.entries[k].already_connected_count + 1;
            },
            None => {},
        }
    }

    /// Counts one source of target `u` whose records failed to load.
    pub fn record_load_failure(&mut self, u: &str)
        requires
            old(self).wf(),
            forall|i: int|
                0 <= i < old(self)@.len() && (#[trigger] old(self)@[i]).target_uuid@ == u@
                    ==> old(self)@[i].record_load_failures < u32::MAX,
        ensures
            final(self).wf(),
            updates_named(
                old(self)@,
                final(self)@,
                target_named(u@),
                |e: TargetDiagnosticEntry|
                    TargetDiagnosticEntry {
                        record_load_failures: (e.record_load_failures + 1) as u32,
                        ..e
                    },
            ),
    {
        match find_target(&self.entries, u) {
            Some(k) => {
                self.entries[k].record_load_failures = self.entries[k].record_load_failures + 1;
            },
            None => {},
        }
    }

    /// Counts one evaluated candidate of target `u`, and whether it had samples.
    pub fn record_candidate_attempt(&mut self, u: &str, had_samples: bool)
        requires
            old(self).wf(),
            forall|i: int|
                0 <= i < old(self)@.len() && (#[trigger] old(self)@[i]).target_uuid@ == u@
                    ==> old(self)@[i].evaluated_candidates < u32::MAX
                    && old(self)@[i].candidates_with_samples < u32::MAX,
        ensures
            final(self).wf(),
            updates_named(
                old(self)@,
                final(self)@,
                target_named(u@),
                |e: TargetDiagnosticEntry|
                    TargetDiagnosticEntry {
                        evaluated_candidates: (e.evaluated_candidates + 1) as u32,
                        candidates_with_samples: if had_samples {
                            (e.candidates_with_samples + 1) as u32
                        } else {
                            e.candidates_with_samples
                        },
                        ..e
                    },
            ),
    {
        match find_target(&self.entries, u) {
            Some(k) => {
                self.entries[k].evaluated_candidates = self.entries[k].evaluated_candidates + 1;
                if had_samples {
                    self.entries[k].candidates_with_samples = self.entries[k].candidates_with_samples
                        + 1;
                }
            },
            None => {},
        }
    }

    /// Records the best-ranked rejection of target `u`.
    pub fn set_best_rejection(&mut self, u: &str, best: BestRejection)
        requires
            old(self).wf(),
        ensures
            final(self).wf(),
            updates_named(
                old(self)@,
                final(self)@,
                target_named(u@),
                |e: TargetDiagnosticEntry| TargetDiagnosticEntry { best_rejection: Some(best), ..e },
            ),
    {
        match find_target(&self.entries, u) {
            Some(k) => {
                self.entries[k].best_rejection = Some(best);
            },
            None => {},
        }
    }

    /// Marks that target `u` produced a candidate.
    pub fn mark_candidate_selected(&mut self, u: &str)
        requires
            old(self).wf(),
        ensures
            final(self).wf(),
            updates_named(
                old(self)@,
                final(self)@,
                target_named(u@),
                |e: TargetDiagnosticEntry| TargetDiagnosticEntry { had_candidate: true, ..e },
            ),
    {
        match find_target(&self.entries, u) {
            Some(k) => {
                self.entries[k].had_candidate = true;
            },
            None => {},
        }
    }

    /// The entry of target `u`, if the book holds it.
    pub fn entry_for(&self, u: &str) -> (r: Option<&TargetDiagnosticEntry>)
        ensures
            match r {
                Some(e) => exists|i: int| 0 <= i < self@.len() && self@[i] == *e && e.target_uuid@ == u@,
                None => forall|i: int| 0 <= i < self@.len() ==> (#[trigger] self@[i]).target_uuid@ != u@,
            },
    {
        match find_target(&self.entries, u) {
            Some(k) => Some(&self.entries[k]),
            None => None,
        }
    }

    /// One summary for each target without candidate, in book order.
    pub fn no_candidate_summaries(&self) -> (r: Vec<SynapseNoCandidateSummary>)
        ensures
            r@.len() == without_candidate(self@).len(),
            forall|i: int| 0 <= i < r@.len() ==> summarises_target(#[trigger] r@[i], without_candidate(self@)[i]),
    {
        let ghost keep = |e: TargetDiagnosticEntry| !e.had_candidate;
        let mut out: Vec<SynapseNoCandidateSummary> = Vec::new();
        let mut k: usize = 0;
        while k < self.entries.len()
            invariant
                k <= self@.len(),
                self.entries@ == self@,
                keep == (|e: TargetDiagnosticEntry| !e.had_candidate),
                out@.len() == self@.take(k as int).filter(keep).len(),
                forall|i: int|
                    0 <= i < out@.len() ==> summarises_target(
                        #[trigger] out@[i],
                        self@.take(k as int).filter(keep)[i],
                    ),
            decreases self@.len() - k,
        {
            let e = &self.entries[k];
            proof {
                assert(self@.take(k + 1) =~= self@.take(k as int).push(*e));
                self@.take(k as int).lemma_filter_push(*e, keep);
            }
            match e.no_candidate_reason() {
                Some(reason) => {
                    let no_sources = e.total_eligible_sources == 0 && e.evaluated_candidates == 0;
                    let all_connected = e.total_eligible_sources > 0 && e.already_connected_count
                        == e.total_eligible_sources && e.evaluated_candidates == 0;
                    let rejection = if no_sources || all_connected {
                        None
                    } else {
                        match &e.best_rejection {
                            Some(b) => Some(copy_rejection(b)),
                            None => None,
                        }
                    };
                    out.push(
                        SynapseNoCandidateSummary {
                            target_uuid: e.target_uuid.clone(),
                            reason,
                            evaluated_candidates: e.evaluated_candidates,
                            candidates_with_samples: e.candidates_with_samples,
                            target_record_count: e.target_record_count,
                            rejection,
                        },
                    );
                },
                None => {},
            }
            k = k + 1;
        }
        assert(self@.take(self@.len() as int) =~= self@);
        out
    }
}

/// The position of the entry of target `u`.
fn find_target(entries: &Vec<TargetDiagnosticEntry>, u: &str) -> (r: Option<usize>)
    ensures
        match r {
            Some(k) => k < entries@.len() && entries@[k as int].target_uuid@ == u@ && forall|i: int|
                0 <= i < k ==> (#[trigger] entries@[i]).target_uuid@ != u@,
            None => forall|i: int| 0 <= i < entries@.len() ==> (#[trigger] entries@[i]).target_uuid@ != u@,
        },
{
    let mut k: usize = 0;
    while k < entries.len()
        invariant
            k <= entries@.len(),
            forall|i: int| 0 <= i < k ==> (#[trigger] entries@[i]).target_uuid@ != u@,
        decreases entries@.len() - k,
    {
        if str_eq(entries[k].target_uuid.as_str(), u) {
            return Some(k);
        }
        k = k + 1;
    }
    None
}

/// A target without candidate that evaluated candidates is explained by its
/// best rejection: the reason is the one of the same name (no samples, zero
/// improvement, below threshold), and without a recorded rejection there are
/// no diagnostics to report.
pub proof fn lemma_reason_follows_best_rejection(e: TargetDiagnosticEntry)
    requires
        !e.had_candidate,
        e.evaluated_candidates > 0,
    ensures
        e.best_rejection matches Some(b) && b.reason == RejectionReason::NoSamples
            ==> synapse_no_candidate_reason(e) == Some(SynapseNoCandidateReason::NoSamples),
        e.best_rejection matches Some(b) && b.reason == RejectionReason::ZeroImprovement
            ==> synapse_no_candidate_reason(e) == Some(SynapseNoCandidateReason::ZeroImprovement),
        e.best_rejection matches Some(b) && b.reason == RejectionReason::BelowThreshold
            ==> synapse_no_candidate_reason(e) == Some(SynapseNoCandidateReason::BelowThreshold),
        e.best_rejection is None ==> synapse_no_candidate_reason(e) == Some(
            SynapseNoCandidateReason::NoDiagnostics,
        ),
        synapse_summary_has_detail(e) <==> e.best_rejection is Some,
{
}

/// A target that produced a candidate gets no no-candidate reason, and one
/// whose eligible sources are all already connected and none was evaluated is
/// reported as having no eligible sources.
pub proof fn lemma_synapse_reason_facts(e: TargetDiagnosticEntry)
    ensures
        e.had_candidate ==> synapse_no_candidate_reason(e) is None,
        !e.had_candidate ==> synapse_no_candidate_reason(e) is Some,
        !e.had_candidate && e.evaluated_candidates == 0 && e.already_connected_count
            == e.total_eligible_sources ==> synapse_no_candidate_reason(e) == Some(
            SynapseNoCandidateReason::NoEligibleSources,
        ),
{
}

// ---------------------------------------------------------------------------
// Neuron analysis
// ---------------------------------------------------------------------------

/// What neuron analysis has recorded about one target.
#[derive(Debug)]
pub struct NeuronDiagnosticEntry {
    pub target_uuid: String,
    pub target_record_count: usize,
    pub total_eligible_sources: u32,
    pub record_load_failures: u32,
    pub evaluated_sources: u32,
    pub sources_with_samples: u32,
    pub had_candidate: bool,
    /// The source of the best-ranked rejection: every rejection neuron
    /// analysis records is a source without samples, and these all rank the
    /// same, so the first one recorded is kept.
    pub best_rejection: Option<String>,
    /// The target was left out because it is a hidden neuron.
    pub hidden_filtered: bool,
    /// The target was left out because it is an input neuron.
    pub input_filtered: bool,
}

/// A neuron entry with nothing recorded yet.
pub open spec fn fresh_neuron_entry(e: NeuronDiagnosticEntry) -> bool {
    &&& e.target_record_count == 0
    &&& e.total_eligible_sources == 0
    &&& e.record_load_failures == 0
    &&& e.evaluated_sources == 0
    &&& e.sources_with_samples == 0
    &&& !e.had_candidate
    &&& e.best_rejection is None
    &&& !e.hidden_filtered
    &&& !e.input_filtered
}

/// Why neuron analysis found no candidate for the target of `e`; `None` when
/// it found one. Filtering decides first, then the absence of sources.
pub open spec fn neuron_no_candidate_reason(e: NeuronDiagnosticEntry) -> Option<NeuronNoCandidateReason> {
    if e.had_candidate {
        None
    } else if e.input_filtered {
        Some(NeuronNoCandidateReason::InputNeuronFiltered)
    } else if e.hidden_filtered {
        Some(NeuronNoCandidateReason::HiddenNeuronFiltered)
    } else if e.evaluated_sources == 0 && e.total_eligible_sources == 0 {
        Some(NeuronNoCandidateReason::NoEligibleSources)
    } else if e.evaluated_sources == 0 {
        Some(NeuronNoCandidateReason::NoSamples)
    } else if e.best_rejection is Some {
        Some(NeuronNoCandidateReason::NoSamples)
    } else {
        Some(NeuronNoCandidateReason::NoDiagnostics)
    }
}

/// Whether the summary of `e` carries the best rejection's source.
pub open spec fn neuron_summary_has_detail(e: NeuronDiagnosticEntry) -> bool {
    !e.had_candidate && !e.input_filtered && !e.hidden_filtered && e.evaluated_sources != 0
        && e.best_rejection is Some
}

impl NeuronDiagnosticEntry {
    /// An entry for `target_uuid` with nothing recorded.
    pub fn new(target_uuid: &str) -> (r: NeuronDiagnosticEntry)
        ensures
            r.target_uuid@ == target_uuid@,
            fresh_neuron_entry(r),
    {
        NeuronDiagnosticEntry {
            target_uuid: target_uuid.to_owned(),
            target_record_count: 0,
            total_eligible_sources: 0,
            record_load_failures: 0,
            evaluated_sources: 0,
            sources_with_samples: 0,
            had_candidate: false,
            best_rejection: None,
            hidden_filtered: false,
            input_filtered: false,
        }
    }

    /// Why neuron analysis found no candidate for this target.
    pub fn no_candidate_reason(&self) -> (r: Option<NeuronNoCandidateReason>)
        ensures
            r == neuron_no_candidate_reason(*self),
    {
        if self.had_candidate {
            None
        } else if self.input_filtered {
            Some(NeuronNoCandidateReason::InputNeuronFiltered)
        } else if self.hidden_filtered {
            Some(NeuronNoCandidateReason::HiddenNeuronFiltered)
        } else if self.evaluated_sources == 0 && self.total_eligible_sources == 0 {
            Some(NeuronNoCandidateReason::NoEligibleSources)
        } else if self.evaluated_sources == 0 {
            Some(NeuronNoCandidateReason::NoSamples)
        } else if self.best_rejection.is_some() {
            Some(NeuronNoCandidateReason::NoSamples)
        } else {
            Some(NeuronNoCandidateReason::NoDiagnostics)
        }
    }
}

/// The no-candidate summary of one neuron target.
#[derive(Debug)]
pub struct NeuronNoCandidateSummary {
    pub target_uuid: String,
    pub reason: NeuronNoCandidateReason,
    pub evaluated_sources: u32,
    pub sources_with_samples: u32,
    pub target_record_count: usize,
    /// The source of the best rejection, where the reason comes from it.
    pub rejected_source: Option<String>,
}

/// Whether `s` summarises the entry `e` of a target without candidate; a
/// filtered target reports no counts.
pub open spec fn summarises_neuron(s: NeuronNoCandidateSummary, e: NeuronDiagnosticEntry) -> bool {
    let filtered = e.input_filtered || e.hidden_filtered;
    &&& neuron_no_candidate_reason(e) == Some(s.reason)
    &&& s.target_uuid@ == e.target_uuid@
    &&& s.evaluated_sources == if filtered { 0 } else { e.evaluated_sources }
    &&& s.sources_with_samples == if filtered { 0 } else { e.sources_with_samples }
    &&& s.target_record_count == if filtered { 0 } else { e.target_record_count }
    &&& if neuron_summary_has_detail(e) {
        s.rejected_source matches Some(src) && e.best_rejection matches Some(b) && src@ == b@
    } else {
        s.rejected_source is None
    }
}

/// The entries of targets without candidate.
pub open spec fn neurons_without_candidate(entries: Seq<NeuronDiagnosticEntry>) -> Seq<NeuronDiagnosticEntry> {
    entries.filter(|e: NeuronDiagnosticEntry| !e.had_candidate)
}

/// Neuron entries picked by target name.
pub open spec fn neuron_named(u: Seq<char>) -> spec_fn(NeuronDiagnosticEntry) -> bool {
    |e: NeuronDiagnosticEntry| e.target_uuid@ == u
}

/// Whether some neuron entry is the entry of target `u`.
pub open spec fn holds_neuron(entries: Seq<NeuronDiagnosticEntry>, u: Seq<char>) -> bool {
    exists|i: int| 0 <= i < entries.len() && (#[trigger] entries[i]).target_uuid@ == u
}

/// Whether no two neuron entries name the same target.
pub open spec fn distinct_neurons(entries: Seq<NeuronDiagnosticEntry>) -> bool {
    forall|i: int, j: int|
        0 <= i < j < entries.len() ==> (#[trigger] entries[i]).target_uuid@ != (#[trigger] entries[j]).target_uuid@
}

/// What neuron analysis has recorded about each requested target.
pub struct NeuronDiagnostics {
    entries: Vec<NeuronDiagnosticEntry>,
}

impl View for NeuronDiagnostics {
    type V = Seq<NeuronDiagnosticEntry>;

    closed spec fn view(&self) -> Seq<NeuronDiagnosticEntry> {
        self.entries@
    }
}

/// The position of the entry of neuron target `u`.
fn find_neuron(entries: &Vec<NeuronDiagnosticEntry>, u: &str) -> (r: Option<usize>)
    ensures
        match r {
            Some(k) => k < entries@.len() && entries@[k as int].target_uuid@ == u@ && forall|i: int|
                0 <= i < k ==> (#[trigger] entries@[i]).target_uuid@ != u@,
            None => forall|i: int| 0 <= i < entries@.len() ==> (#[trigger] entries@[i]).target_uuid@ != u@,
        },
{
    let mut k: usize = 0;
    while k < entries.len()
        invariant
            k <= entries@.len(),
            forall|i: int| 0 <= i < k ==> (#[trigger] entries@[i]).target_uuid@ != u@,
        decreases entries@.len() - k,
    {
        if str_eq(entries[k].target_uuid.as_str(), u) {
            return Some(k);
        }
        k = k + 1;
    }
    None
}

impl NeuronDiagnostics {
    /// Well-formedness: no two entries name the same target.
    pub open spec fn wf(&self) -> bool {
        distinct_neurons(self@)
    }

    /// A book with one fresh entry for each distinct target.
    pub fn new(targets: &[String]) -> (r: NeuronDiagnostics)
        ensures
            r.wf(),
            forall|i: int| 0 <= i < r@.len() ==> fresh_neuron_entry(#[trigger] r@[i]),
            forall|u: Seq<char>| #[trigger] holds_neuron(r@, u) <==> lists(targets@, u),
    {
        let mut entries: Vec<NeuronDiagnosticEntry> = Vec::new();
        let mut k: usize = 0;
        while k < targets.len()
            invariant
                k <= targets@.len(),
                distinct_neurons(entries@),
                forall|i: int| 0 <= i < entries@.len() ==> fresh_neuron_entry(#[trigger] entries@[i]),
                forall|u: Seq<char>| #[trigger] holds_neuron(entries@, u) <==> lists(targets@.take(k as int), u),
            decreases targets@.len() - k,
        {
            let t = targets[k].as_str();
            let ghost before = entries@;
            let known = find_neuron(&entries, t);
            if known.is_none() {
                entries.push(NeuronDiagnosticEntry::new(t));
            }
            proof {
                assert forall|u: Seq<char>| #[trigger] holds_neuron(entries@, u) <==> (holds_neuron(before, u) || u == t@) by {
                    if holds_neuron(before, u) {
                        let i = choose|i: int| 0 <= i < before.len() && (#[trigger] before[i]).target_uuid@ == u;
                        assert(entries@[i] == before[i]);
                    }
                    if holds_neuron(entries@, u) {
                        let i = choose|i: int| 0 <= i < entries@.len() && (#[trigger] entries@[i]).target_uuid@ == u;
                        if i < before.len() {
                            assert(entries@[i] == before[i]);
                        }
                    }
                    if u == t@ {
                        match known {
                            Some(j) => {
                                assert(entries@[j as int].target_uuid@ == u);
                            },
                            None => {
                                assert(entries@[entries@.len() - 1].target_uuid@ == u);
                            },
                        }
                    }
                }
                let prev = targets@.take(k as int);
                let next = targets@.take(k + 1);
                assert(next =~= prev.push(targets@[k as int]));
                assert forall|u: Seq<char>| #[trigger] holds_neuron(entries@, u) <==> lists(next, u) by {
                    if lists(prev, u) {
                        let j = choose|j: int| 0 <= j < prev.len() && (#[trigger] prev[j])@ == u;
                        assert(next[j] == prev[j]);
                    }
                    if lists(next, u) {
                        let j = choose|j: int| 0 <= j < next.len() && (#[trigger] next[j])@ == u;
                        if j < k {
                            assert(prev[j] == next[j]);
                        }
                    }
                    if u == targets@[k as int]@ {
                        assert(next[k as int]@ == u);
                    }
                }
            }
            k = k + 1;
        }
        assert(targets@.take(targets@.len() as int) =~= targets@);
        NeuronDiagnostics { entries }
    }

    /// The entries, one per target.
    pub fn entries(&self) -> (r: &[NeuronDiagnosticEntry])
        ensures
            r@ == self@,
    {
        self.entries.as_slice()
    }

    /// Sets the number of records of target `u`.
    pub fn set_target_record_count(&mut self, u: &str, count: usize)
        requires
            old(self).wf(),
        ensures
            final(self).wf(),
            updates_named(
                old(self)@,
                final(self)@,
                neuron_named(u@),
                |e: NeuronDiagnosticEntry| NeuronDiagnosticEntry { target_record_count: count, ..e },
            ),
    {
        match find_neuron(&self.entries, u) {
            Some(k) => {
                self.entries[k].target_record_count = count;
            },
            None => {},
        }
    }

    /// Sets the number of eligible sources of target `u`.
    pub fn set_total_eligible_sources(&mut self, u: &str, count: u32)
        requires
            old(self).wf(),
        ensures
            final(self).wf(),
            updates_named(
                old(self)@,
                final(self)@,
                neuron_named(u@),
                |e: NeuronDiagnosticEntry| NeuronDiagnosticEntry { total_eligible_sources: count, ..e },
            ),
    {
        match find_neuron(&self.entries, u) {
            Some(k) => {
                self.entries[k].total_eligible_sources = count;
            },
            None => {},
        }
    }

    /// Counts one source of target `u` whose records failed to load.
    pub fn record_load_failure(&mut self, u: &str)
        requires
            old(self).wf(),
            forall|i: int|
                0 <= i < old(self)@.len() && (#[trigger] old(self)@[i]).target_uuid@ == u@
                    ==> old(self)@[i].record_load_failures < u32::MAX,
        ensures
            final(self).wf(),
            updates_named(
                old(self)@,
                final(self)@,
                neuron_named(u@),
                |e: NeuronDiagnosticEntry|
                    NeuronDiagnosticEntry { record_load_failures: (e.record_load_failures + 1) as u32, ..e },
            ),
    {
        match find_neuron(&self.entries, u) {
            Some(k) => {
                self.entries[k].record_load_failures = self.entries[k].record_load_failures + 1;
            },
            None => {},
        }
    }

    /// Counts one evaluated source of target `u`, and whether it had samples.
    pub fn record_candidate_attempt(&mut self, u: &str, had_samples: bool)
        requires
            old(self).wf(),
            forall|i: int|
                0 <= i < old(self)@.len() && (#[trigger] old(self)@[i]).target_uuid@ == u@
                    ==> old(self)@[i].evaluated_sources < u32::MAX
                    && old(self)@[i].sources_with_samples < u32::MAX,
        ensures
            final(self).wf(),
            updates_named(
                old(self)@,
                final(self)@,
                neuron_named(u@),
                |e: NeuronDiagnosticEntry|
                    NeuronDiagnosticEntry {
                        evaluated_sources: (e.evaluated_sources + 1) as u32,
                        sources_with_samples: if had_samples {
                            (e.sources_with_samples + 1) as u32
                        } else {
                            e.sources_with_samples
                        },
                        ..e
                    },
            ),
    {
        match find_neuron(&self.entries, u) {
            Some(k) => {
                self.entries[k].evaluated_sources = self.entries[k].evaluated_sources + 1;
                if had_samples {
                    self.entries[k].sources_with_samples = self.entries[k].sources_with_samples + 1;
                }
            },
            None => {},
        }
    }

    /// Records that `source` gave target `u` no samples; the first such source
    /// stays the best rejection.
    pub fn record_no_samples(&mut self, u: &str, source: &str)
        requires
            old(self).wf(),
        ensures
            final(self).wf(),
            final(self)@.len() == old(self)@.len(),
            forall|i: int|
                0 <= i < old(self)@.len() ==> {
                    let o = #[trigger] old(self)@[i];
                    let n = final(self)@[i];
                    if o.target_uuid@ == u@ && o.best_rejection is None {
                        &&& n == NeuronDiagnosticEntry { best_rejection: n.best_rejection, ..o }
                        &&& n.best_rejection matches Some(b) && b@ == source@
                    } else {
                        n == o
                    }
                },
    {
        match find_neuron(&self.entries, u) {
            Some(k) => {
                if self.entries[k].best_rejection.is_none() {
                    self.entries[k].best_rejection = Some(source.to_owned());
                }
            },
            None => {},
        }
    }

    /// Marks that target `u` produced a candidate.
    pub fn mark_candidate_selected(&mut self, u: &str)
        requires
            old(self).wf(),
        ensures
            final(self).wf(),
            updates_named(
                old(self)@,
                final(self)@,
                neuron_named(u@),
                |e: NeuronDiagnosticEntry| NeuronDiagnosticEntry { had_candidate: true, ..e },
            ),
    {
        match find_neuron(&self.entries, u) {
            Some(k) => {
                self.entries[k].had_candidate = true;
            },
            None => {},
        }
    }

    /// Marks target `u` as left out for being a hidden neuron.
    pub fn mark_hidden_filtered(&mut self, u: &str)
        requires
            old(self).wf(),
        ensures
            final(self).wf(),
            updates_named(
                old(self)@,
                final(self)@,
                neuron_named(u@),
                |e: NeuronDiagnosticEntry| NeuronDiagnosticEntry { hidden_filtered: true, ..e },
            ),
    {
        match find_neuron(&self.entries, u) {
            Some(k) => {
                self.entries[k].hidden_filtered = true;
            },
            None => {},
        }
    }

    /// Marks target `u` as left out for being an input neuron.
    pub fn mark_input_filtered(&mut self, u: &str)
        requires
            old(self).wf(),
        ensures
            final(self).wf(),
            updates_named(
                old(self)@,
                final(self)@,
                neuron_named(u@),
                |e: NeuronDiagnosticEntry| NeuronDiagnosticEntry { input_filtered: true, ..e },
            ),
    {
        match find_neuron(&self.entries, u) {
            Some(k) => {
                self.entries[k].input_filtered = true;
            },
            None => {},
        }
    }

    /// The entry of target `u`, if the book holds it.
    pub fn entry_for(&self, u: &str) -> (r: Option<&NeuronDiagnosticEntry>)
        ensures
            match r {
                Some(e) => exists|i: int| 0 <= i < self@.len() && self@[i] == *e && e.target_uuid@ == u@,
                None => forall|i: int| 0 <= i < self@.len() ==> (#[trigger] self@[i]).target_uuid@ != u@,
            },
    {
        match find_neuron(&self.entries, u) {
            Some(k) => Some(&self.entries[k]),
            None => None,
        }
    }

    /// One summary for each target without candidate, in book order.
    pub fn no_candidate_summaries(&self) -> (r: Vec<NeuronNoCandidateSummary>)
        ensures
            r@.len() == neurons_without_candidate(self@).len(),
            forall|i: int| 0 <= i < r@.len() ==> summarises_neuron(#[trigger] r@[i], neurons_without_candidate(self@)[i]),
    {
        let ghost keep = |e: NeuronDiagnosticEntry| !e.had_candidate;
        let mut out: Vec<NeuronNoCandidateSummary> = Vec::new();
        let mut k: usize = 0;
        while k < self.entries.len()
            invariant
                k <= self@.len(),
                self.entries@ == self@,
                keep == (|e: NeuronDiagnosticEntry| !e.had_candidate),
                out@.len() == self@.take(k as int).filter(keep).len(),
                forall|i: int|
                    0 <= i < out@.len() ==> summarises_neuron(
                        #[trigger] out@[i],
                        self@.take(k as int).filter(keep)[i],
                    ),
            decreases self@.len() - k,
        {
            let e = &self.entries[k];
            proof {
                assert(self@.take(k + 1) =~= self@.take(k as int).push(*e));
                self@.take(k as int).lemma_filter_push(*e, keep);
            }
            match e.no_candidate_reason() {
                Some(reason) => {
                    let filtered = e.input_filtered || e.hidden_filtered;
                    let rejected_source = if !filtered && e.evaluated_sources != 0 {
                        match &e.best_rejection {
                            Some(b) => Some(b.clone()),
                            None => None,
                        }
                    } else {
                        None
                    };
                    out.push(
                        NeuronNoCandidateSummary {
                            target_uuid: e.target_uuid.clone(),
                            reason,
                            evaluated_sources: if filtered { 0 } else { e.evaluated_sources },
                            sources_with_samples: if filtered { 0 } else { e.sources_with_samples },
                            target_record_count: if filtered { 0 } else { e.target_record_count },
                            rejected_source,
                        },
                    );
                },
                None => {},
            }
            k = k + 1;
        }
        assert(self@.take(self@.len() as int) =~= self@);
        out
    }
}

/// An unfiltered neuron target without candidate is explained by its sources:
/// none eligible and none evaluated gives no eligible sources; eligible sources
/// that were never evaluated, or a recorded source without samples, give no
/// samples; otherwise there are no diagnostics. Only such a recorded source is
/// reported with the summary.
pub proof fn lemma_neuron_reason_follows_sources(e: NeuronDiagnosticEntry)
    requires
        !e.had_candidate,
        !e.input_filtered,
        !e.hidden_filtered,
    ensures
        e.evaluated_sources == 0 && e.total_eligible_sources == 0 ==> neuron_no_candidate_reason(e)
            == Some(NeuronNoCandidateReason::NoEligibleSources),
        e.evaluated_sources == 0 && e.total_eligible_sources > 0 ==> neuron_no_candidate_reason(e)
            == Some(NeuronNoCandidateReason::NoSamples),
        e.evaluated_sources > 0 && e.best_rejection is Some ==> neuron_no_candidate_reason(e)
            == Some(NeuronNoCandidateReason::NoSamples),
        e.evaluated_sources > 0 && e.best_rejection is None ==> neuron_no_candidate_reason(e)
            == Some(NeuronNoCandidateReason::NoDiagnostics),
        neuron_summary_has_detail(e) <==> (e.evaluated_sources > 0 && e.best_rejection is Some),
{
}

/// Filtering takes precedence: an input or hidden neuron without candidate is
/// reported as filtered whatever else was recorded about it.
pub proof fn lemma_neuron_filter_precedence(e: NeuronDiagnosticEntry)
    ensures
        !e.had_candidate && e.input_filtered ==> neuron_no_candidate_reason(e) == Some(
            NeuronNoCandidateReason::InputNeuronFiltered,
        ),
        !e.had_candidate && !e.input_filtered && e.hidden_filtered ==> neuron_no_candidate_reason(e)
            == Some(NeuronNoCandidateReason::HiddenNeuronFiltered),
        e.had_candidate ==> neuron_no_candidate_reason(e) is None,
{
}

} // verus!
