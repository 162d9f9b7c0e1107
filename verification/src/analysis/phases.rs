//! Which analysis phases run, in which order, and when a pass stops taking on
//! new targets.
//!
//! Both phases run unless the request turns one off; neuron analysis goes
//! first because new structure is worth more than new connections. Deadlines
//! are checked before each target: a target that has started is finished, and
//! once the deadline has been seen to pass, no further target starts.
use vstd::prelude::*;

verus! {

/// An analysis phase.
#[derive(Clone, Copy, Debug, PartialEq, Eq, Structural)]
pub enum Phase {
    Neuron,
    Synapse,
}

/// The phases a request asks for.
#[derive(Clone, Copy, Debug, PartialEq, Eq, Structural)]
pub struct PhasePlan {
    pub neuron: bool,
    pub synapse: bool,
}

/// The phases to run, in order: neurons first, then synapses.
pub open spec fn phase_sequence(plan: PhasePlan) -> Seq<Phase> {
    (if plan.neuron {
        seq![Phase::Neuron]
    } else {
        Seq::empty()
    }) + (if plan.synapse {
        seq![Phase::Synapse]
    } else {
        Seq::empty()
    })
}

/// The phases a request asks for: each runs unless turned off explicitly.
pub fn plan_phases(include_synapse: Option<bool>, include_neuron: Option<bool>) -> (r: PhasePlan)
    ensures
        r.synapse == (include_synapse != Some(false)),
        r.neuron == (include_neuron != Some(false)),
{
    let synapse = match include_synapse {
        Some(b) => b,
        None => true,
    };
    let neuron = match include_neuron {
        Some(b) => b,
        None => true,
    };
    PhasePlan { neuron, synapse }
}

impl PhasePlan {
    /// Whether any phase runs, so that discovery records must be loaded.
    pub fn loads_records(&self) -> (r: bool)
        ensures
            r == (self.neuron || self.synapse),
    {
        self.neuron || self.synapse
    }

    /// The phases to run, in order.
    pub fn sequence(&self) -> (r: Vec<Phase>)
        ensures
            r@ == phase_sequence(*self),
    {
        let mut out: Vec<Phase> = Vec::new();
        if self.neuron {
            out.push(Phase::Neuron);
        }
        if self.synapse {
            out.push(Phase::Synapse);
        }
        proof {
            assert(out@ =~= phase_sequence(*self));
        }
        out
    }
}

/// Whether a pass has seen its deadline pass.
#[derive(Clone, Copy, Debug, PartialEq, Eq, Structural)]
pub struct TimeoutLatch {
    pub timed_out: bool,
}

/// Whether the next target may start, for a latch in state `timed_out` and
/// a clock reading `deadline_passed`.
pub open spec fn latch_allows(timed_out: bool, deadline_passed: bool) -> bool {
    !timed_out && !deadline_passed
}

/// The latch state after that reading.
pub open spec fn latch_after(timed_out: bool, deadline_passed: bool) -> bool {
    timed_out || deadline_passed
}

/// Which of a series of targets start, given the clock reading taken before
/// each of them.
pub open spec fn started_targets(timed_out: bool, readings: Seq<bool>) -> Seq<bool>
    decreases readings.len(),
{
    if readings.len() == 0 {
        Seq::empty()
    } else {
        seq![latch_allows(timed_out, readings[0])] + started_targets(
            latch_after(timed_out, readings[0]),
            readings.drop_first(),
        )
    }
}

impl TimeoutLatch {
    /// A latch that has not timed out.
    pub fn new() -> (r: TimeoutLatch)
        ensures
            !r.timed_out,
    {
        TimeoutLatch { timed_out: false }
    }

    /// Whether the next target may start, given whether the deadline has
    /// passed now; a passed deadline closes the latch for good.
    pub fn allows_next_target(&mut self, deadline_passed: bool) -> (r: bool)
        ensures
            r == latch_allows(old(self).timed_out, deadline_passed),
            final(self).timed_out == latch_after(old(self).timed_out, deadline_passed),
    {
        if self.timed_out || deadline_passed {
            self.timed_out = true;
            false
        } else {
            true
        }
    }
}

/// Vertical timeout: of a series of targets, exactly those before the first
/// reading that shows the deadline passed start; once it has been seen to
/// pass, no later target starts, whatever later readings say.
pub proof fn lemma_targets_start_until_deadline(readings: Seq<bool>)
    ensures
        started_targets(false, readings).len() == readings.len(),
        forall|i: int|
            0 <= i < readings.len() ==> (#[trigger] started_targets(false, readings)[i] <==> forall|j: int|
                0 <= j <= i ==> !readings[j]),
    decreases readings.len(),
{
    lemma_closed_latch_starts_nothing(readings);
    if readings.len() > 0 {
        let rest = readings.drop_first();
        lemma_targets_start_until_deadline(rest);
        lemma_closed_latch_starts_nothing(rest);
        let all = started_targets(false, readings);
        assert forall|i: int| 0 <= i < readings.len() implies (#[trigger] all[i] <==> forall|j: int|
            0 <= j <= i ==> !readings[j]) by {
            if i > 0 {
                if readings[0] {
                    assert(all[i] == started_targets(true, rest)[i - 1]);
                } else {
                    assert(all[i] == started_targets(false, rest)[i - 1]);
                    if forall|j: int| 0 <= j <= i - 1 ==> !rest[j] {
                        assert forall|j: int| 0 <= j <= i implies !readings[j] by {
                            if j > 0 {
                                assert(readings[j] == rest[j - 1]);
                            }
                        }
                    } else {
                        let j = choose|j: int| 0 <= j <= i - 1 && rest[j];
                        assert(readings[j + 1] == rest[j]);
                    }
                }
            }
        }
    }
}

/// A latch that has timed out starts no target at all.
pub proof fn lemma_closed_latch_starts_nothing(readings: Seq<bool>)
    ensures
        started_targets(true, readings).len() == readings.len(),
        forall|i: int| 0 <= i < readings.len() ==> !#[trigger] started_targets(true, readings)[i],
    decreases readings.len(),
{
    if readings.len() > 0 {
        lemma_closed_latch_starts_nothing(readings.drop_first());
        let all = started_targets(true, readings);
        assert forall|i: int| 0 <= i < readings.len() implies !#[trigger] all[i] by {
            if i > 0 {
                assert(all[i] == started_targets(true, readings.drop_first())[i - 1]);
            }
        }
    }
}

/// Neuron analysis runs before synapse analysis whenever both run, and a
/// request that turns both off runs nothing.
pub proof fn lemma_neurons_run_first(plan: PhasePlan)
    ensures
        plan.neuron && plan.synapse ==> phase_sequence(plan) == seq![Phase::Neuron, Phase::Synapse],
        !plan.neuron && !plan.synapse ==> phase_sequence(plan).len() == 0,
{
    if plan.neuron && plan.synapse {
        assert(phase_sequence(plan) =~= seq![Phase::Neuron, Phase::Synapse]);
    }
}

} // verus!
