//! Distinguish environmentally-disabled discovery passes from genuine search
//! exhaustion.
//!
//! When a discovery pass is gated by a host-environment check (memory budget,
//! system memory pressure, or a missing GPU adapter) the analysis never
//! evaluated the creature. Such a pass must not count as "the creature has no
//! improving move": drought, staleness, cooldown and starvation accounting
//! ignore [`AnalysisOutcome::EnvironmentallyDisabled`] passes.
use vstd::prelude::*;

verus! {

/// Why a discovery pass could not evaluate the creature.
#[derive(Clone, Copy, Debug, PartialEq, Eq, Structural)]
pub enum EnvironmentalDisableReason {
    /// The memory budget was exceeded before GPU analysis began.
    MemoryGated,
    /// Analysis was cancelled because the system was under critical memory pressure.
    MemoryPressure,
    /// No compatible GPU adapter was found on this host.
    GpuUnavailable,
}

impl EnvironmentalDisableReason {
    /// The stable identifier of a reason.
    pub open spec fn spec_str(self) -> Seq<char> {
        match self {
            EnvironmentalDisableReason::MemoryGated => "memory_gated"@,
            EnvironmentalDisableReason::MemoryPressure => "memory_pressure"@,
            EnvironmentalDisableReason::GpuUnavailable => "gpu_unavailable"@,
        }
    }

    /// Stable, greppable identifier for logs and metrics.
    pub fn as_str(self) -> (r: &'static str)
        ensures
            r@ == self.spec_str(),
    {
        match self {
            EnvironmentalDisableReason::MemoryGated => "memory_gated",
            EnvironmentalDisableReason::MemoryPressure => "memory_pressure",
            EnvironmentalDisableReason::GpuUnavailable => "gpu_unavailable",
        }
    }
}

/// Outcome of a single discovery analysis pass.
#[derive(Clone, Copy, Debug, PartialEq, Eq, Structural)]
pub enum AnalysisOutcome {
    /// The pass evaluated the creature and produced `candidates` candidates.
    Completed {
        /// Total candidates returned across synapse and neuron analysis.
        candidates: usize,
    },
    /// The pass was gated by an environmental check and never evaluated the creature.
    EnvironmentallyDisabled {
        /// Why discovery could not run on this host.
        reason: EnvironmentalDisableReason,
    },
}

/// What the classification of a successful analysis pass reads from its result:
/// the two environmental gates and the candidate counts of each phase
/// (`None` where a phase did not run).
#[derive(Clone, Copy, Debug, PartialEq, Eq, Structural)]
pub struct AnalysisPassSummary {
    /// The memory budget was exceeded before GPU analysis began.
    pub memory_budget_exceeded: bool,
    /// The pass was cancelled under critical memory pressure.
    pub memory_pressure_cancelled: bool,
    /// Candidates returned by synapse analysis, when it ran.
    pub synapse_candidates_returned: Option<usize>,
    /// Candidates returned by neuron analysis, when it ran.
    pub neuron_candidates_returned: Option<usize>,
}

impl AnalysisPassSummary {
    /// Total candidates across both phases, saturating at `usize::MAX`.
    pub open spec fn spec_candidate_total(self) -> usize {
        let synapse: usize = match self.synapse_candidates_returned {
            Some(n) => n,
            None => 0,
        };
        let neuron: usize = match self.neuron_candidates_returned {
            Some(n) => n,
            None => 0,
        };
        synapse.saturating_add(neuron)
    }
}

impl AnalysisOutcome {
    /// The classification of a successful pass.
    pub open spec fn spec_from_result(result: AnalysisPassSummary) -> AnalysisOutcome {
        if result.memory_budget_exceeded {
            AnalysisOutcome::EnvironmentallyDisabled {
                reason: EnvironmentalDisableReason::MemoryGated,
            }
        } else if result.memory_pressure_cancelled {
            AnalysisOutcome::EnvironmentallyDisabled {
                reason: EnvironmentalDisableReason::MemoryPressure,
            }
        } else {
            AnalysisOutcome::Completed { candidates: result.spec_candidate_total() }
        }
    }

    /// The pass was gated by the host and never evaluated the creature.
    pub open spec fn spec_is_environmentally_disabled(self) -> bool {
        self is EnvironmentallyDisabled
    }

    /// The pass evaluated the creature and found nothing.
    pub open spec fn spec_is_genuinely_empty(self) -> bool {
        self matches AnalysisOutcome::Completed { candidates } && candidates == 0
    }

    /// The pass evaluated the creature and found candidates.
    pub open spec fn spec_is_productive(self) -> bool {
        self matches AnalysisOutcome::Completed { candidates } && candidates > 0
    }

    /// Why the pass was gated, if it was.
    pub open spec fn spec_disable_reason(self) -> Option<EnvironmentalDisableReason> {
        match self {
            AnalysisOutcome::EnvironmentallyDisabled { reason } => Some(reason),
            AnalysisOutcome::Completed { .. } => None,
        }
    }

    /// Classify a successful pass.
    ///
    /// The environmental gates that still produce a result are the memory budget
    /// and critical memory pressure (the budget is checked first). Any other
    /// result is [`Self::Completed`] with its genuine candidate count, even
    /// when that count is zero (true search exhaustion).
    pub fn from_result(result: &AnalysisPassSummary) -> (r: Self)
        ensures
            r == Self::spec_from_result(*result),
    {
        if result.memory_budget_exceeded {
            return AnalysisOutcome::EnvironmentallyDisabled {
                reason: EnvironmentalDisableReason::MemoryGated,
            };
        }
        if result.memory_pressure_cancelled {
            return AnalysisOutcome::EnvironmentallyDisabled {
                reason: EnvironmentalDisableReason::MemoryPressure,
            };
        }
        AnalysisOutcome::Completed { candidates: Self::count_candidates(result) }
    }

    /// Outcome for the GPU-unavailable early return, which is an error of the
    /// analysis rather than a result.
    pub fn gpu_unavailable() -> (r: Self)
        ensures
            r == (AnalysisOutcome::EnvironmentallyDisabled {
                reason: EnvironmentalDisableReason::GpuUnavailable,
            }),
    {
        AnalysisOutcome::EnvironmentallyDisabled {
            reason: EnvironmentalDisableReason::GpuUnavailable,
        }
    }

    /// `true` when the pass was gated before evaluation and therefore carries
    /// no search-exhaustion signal.
    pub fn is_environmentally_disabled(&self) -> (r: bool)
        ensures
            r == self.spec_is_environmentally_disabled(),
    {
        match self {
            AnalysisOutcome::EnvironmentallyDisabled { .. } => true,
            AnalysisOutcome::Completed { .. } => false,
        }
    }

    /// `true` when the pass evaluated the creature and returned no candidates.
    pub fn is_genuinely_empty(&self) -> (r: bool)
        ensures
            r == self.spec_is_genuinely_empty(),
    {
        match self {
            AnalysisOutcome::Completed { candidates } => *candidates == 0,
            AnalysisOutcome::EnvironmentallyDisabled { .. } => false,
        }
    }

    /// `true` when the pass evaluated the creature and returned at least one candidate.
    pub fn is_productive(&self) -> (r: bool)
        ensures
            r == self.spec_is_productive(),
    {
        match self {
            AnalysisOutcome::Completed { candidates } => *candidates > 0,
            AnalysisOutcome::EnvironmentallyDisabled { .. } => false,
        }
    }

    /// The environmental disable reason, if any.
    pub fn disable_reason(&self) -> (r: Option<EnvironmentalDisableReason>)
        ensures
            r == self.spec_disable_reason(),
    {
        match self {
            AnalysisOutcome::EnvironmentallyDisabled { reason } => Some(*reason),
            AnalysisOutcome::Completed { .. } => None,
        }
    }

    /// Total candidates returned across synapse and neuron analysis.
    fn count_candidates(result: &AnalysisPassSummary) -> (r: usize)
        ensures
            r == result.spec_candidate_total(),
    {
        let synapse: usize = match result.synapse_candidates_returned {
            Some(n) => n,
            None => 0,
        };
        let neuron: usize = match result.neuron_candidates_returned {
            Some(n) => n,
            None => 0,
        };
        synapse.saturating_add(neuron)
    }
}

/// Running tally of pass outcomes for the discovery summary.
///
/// Separates environmentally-disabled passes (the host could not run
/// discovery) from genuinely-empty passes (the search was exhausted).
#[derive(Clone, Copy, Debug, PartialEq, Eq, Structural)]
pub struct PassOutcomeCounts {
    /// Passes that returned at least one candidate.
    pub productive: u32,
    /// Passes that evaluated the creature but found no candidate.
    pub genuinely_empty: u32,
    /// Passes gated by an environmental check that never evaluated the creature.
    pub environmentally_disabled: u32,
}

impl Default for PassOutcomeCounts {
    fn default() -> (r: Self)
        ensures
            r == (PassOutcomeCounts { productive: 0, genuinely_empty: 0, environmentally_disabled: 0 }),
    {
        PassOutcomeCounts { productive: 0, genuinely_empty: 0, environmentally_disabled: 0 }
    }
}

impl PassOutcomeCounts {
    /// Total passes recorded, saturating at `u32::MAX`.
    pub open spec fn spec_total(self) -> u32 {
        self.productive.saturating_add(self.genuinely_empty).saturating_add(
            self.environmentally_disabled,
        )
    }

    /// The tally after one more pass with outcome `outcome`.
    pub open spec fn spec_record(self, outcome: AnalysisOutcome) -> PassOutcomeCounts {
        match outcome {
            AnalysisOutcome::Completed { candidates } => if candidates > 0 {
                PassOutcomeCounts { productive: self.productive.saturating_add(1), ..self }
            } else {
                PassOutcomeCounts { genuinely_empty: self.genuinely_empty.saturating_add(1), ..self }
            },
            AnalysisOutcome::EnvironmentallyDisabled { .. } => PassOutcomeCounts {
                environmentally_disabled: self.environmentally_disabled.saturating_add(1),
                ..self
            },
        }
    }

    /// Record a single pass outcome: exactly the counter of its category grows
    /// by one (saturating at `u32::MAX`).
    pub fn record(&mut self, outcome: &AnalysisOutcome)
        ensures
            *final(self) == old(self).spec_record(*outcome),
    {
        match outcome {
            AnalysisOutcome::Completed { candidates } => {
                if *candidates > 0 {
                    self.productive = self.productive.saturating_add(1);
                } else {
                    self.genuinely_empty = self.genuinely_empty.saturating_add(1);
                }
            },
            AnalysisOutcome::EnvironmentallyDisabled { .. } => {
                self.environmentally_disabled = self.environmentally_disabled.saturating_add(1);
            },
        }
    }

    /// Total passes recorded across all categories.
    pub fn total(&self) -> (r: u32)
        ensures
            r == self.spec_total(),
    {
        self.productive.saturating_add(self.genuinely_empty).saturating_add(
            self.environmentally_disabled,
        )
    }
}

/// Every pass outcome falls in exactly one category: environmentally disabled,
/// genuinely empty, or productive; and it carries a disable reason exactly
/// when it is environmentally disabled.
pub proof fn lemma_outcome_categories_partition(outcome: AnalysisOutcome)
    ensures
        outcome.spec_is_environmentally_disabled() || outcome.spec_is_genuinely_empty()
            || outcome.spec_is_productive(),
        !(outcome.spec_is_environmentally_disabled() && outcome.spec_is_genuinely_empty()),
        !(outcome.spec_is_environmentally_disabled() && outcome.spec_is_productive()),
        !(outcome.spec_is_genuinely_empty() && outcome.spec_is_productive()),
        outcome.spec_disable_reason() is Some <==> outcome.spec_is_environmentally_disabled(),
{
}

/// A pass gated by either memory check is never counted as search exhaustion,
/// and a pass that passed both gates is classified by its candidate total alone.
pub proof fn lemma_gated_result_is_not_exhaustion(result: AnalysisPassSummary)
    ensures
        (result.memory_budget_exceeded || result.memory_pressure_cancelled) ==> (
        AnalysisOutcome::spec_from_result(result).spec_is_environmentally_disabled()
            && !AnalysisOutcome::spec_from_result(result).spec_is_genuinely_empty()),
        (!result.memory_budget_exceeded && !result.memory_pressure_cancelled) ==> (
        AnalysisOutcome::spec_from_result(result).spec_is_genuinely_empty() <==> (
        result.synapse_candidates_returned.unwrap_or(0) == 0
            && result.neuron_candidates_returned.unwrap_or(0) == 0)),
{
}

/// Recording a pass adds exactly one to the total, as long as the counters are
/// far from saturation.
pub proof fn lemma_record_adds_one(counts: PassOutcomeCounts, outcome: AnalysisOutcome)
    requires
        counts.productive + counts.genuinely_empty + counts.environmentally_disabled < u32::MAX,
    ensures
        counts.spec_record(outcome).spec_total() == counts.spec_total() + 1,
{
}

} // verus!
