//! Which neurons an analysis pass targets and which upstream neurons it
//! considers as sources.
//!
//! Neurons are ordered inputs first (`input-0`, `input-1`, ...) and then the
//! creature's neurons in their listed order; a source is eligible for a target
//! only when it comes earlier in that order.
use vstd::prelude::*;

use rand::seq::SliceRandom;

use crate::analysis::threshold::{is_threshold_activation, threshold_of_squash};
use crate::positions::{lemma_positions_where, positions_where};
use crate::text::{decimal, push_decimal, str_eq};
use vstd::string::StringExecFns;

verus! {

/// What discovery reads from one creature neuron.
#[derive(Clone, Debug)]
pub struct NeuronInfo {
    /// The neuron's identifier.
    pub uuid: String,
    /// `"hidden"`, `"output"` or `"constant"`.
    pub neuron_type: String,
    /// The neuron's squash name.
    pub squash: String,
}

/// A neuron with its position in the creature's evaluation order.
#[derive(Clone, Debug)]
pub struct OrderedNeuron {
    pub uuid: String,
    pub index: usize,
}

/// The identifier of input neuron `i`: `input-<i>`.
pub open spec fn input_uuid(i: nat) -> Seq<char> {
    "input-"@ + decimal(i)
}

/// Whether `u` names one of the first `input` input neurons.
pub open spec fn is_input_uuid(input: nat, u: Seq<char>) -> bool {
    exists|i: nat| i < input && u == #[trigger] input_uuid(i)
}

/// The last neuron listed with identifier `u`.
pub open spec fn last_neuron_with_uuid(neurons: Seq<NeuronInfo>, u: Seq<char>) -> Option<NeuronInfo>
    decreases neurons.len(),
{
    if neurons.len() == 0 {
        None
    } else if neurons.last().uuid@ == u {
        Some(neurons.last())
    } else {
        last_neuron_with_uuid(neurons.drop_last(), u)
    }
}

/// The type of the neuron named `u`: a listed neuron's type (the last listing
/// wins), else `"input"` for an input identifier, else unknown.
pub open spec fn neuron_type_of(input: nat, neurons: Seq<NeuronInfo>, u: Seq<char>) -> Option<
    Seq<char>,
> {
    match last_neuron_with_uuid(neurons, u) {
        Some(n) => Some(n.neuron_type@),
        None => if is_input_uuid(input, u) {
            Some("input"@)
        } else {
            None
        },
    }
}

/// The squash of the neuron named `u`, if it is a listed neuron (last listing wins).
pub open spec fn squash_of(neurons: Seq<NeuronInfo>, u: Seq<char>) -> Option<Seq<char>> {
    match last_neuron_with_uuid(neurons, u) {
        Some(n) => Some(n.squash@),
        None => None,
    }
}

/// The evaluation order of a creature with `input` inputs and `neurons`.
pub open spec fn is_creature_order(input: nat, neurons: Seq<NeuronInfo>, ordered: Seq<OrderedNeuron>) -> bool {
    &&& ordered.len() == input + neurons.len()
    &&& forall|i: int|
        0 <= i < input ==> (#[trigger] ordered[i]).uuid@ == input_uuid(i as nat) && ordered[i].index
            == i
    &&& forall|j: int|
        0 <= j < neurons.len() ==> (#[trigger] ordered[input + j]).uuid@ == neurons[j].uuid@
            && ordered[input + j].index == input + j
}

/// The position of the last ordered neuron named `u`.
pub open spec fn order_index_of(ordered: Seq<OrderedNeuron>, u: Seq<char>) -> Option<usize>
    decreases ordered.len(),
{
    if ordered.len() == 0 {
        None
    } else if ordered.last().uuid@ == u {
        Some(ordered.last().index)
    } else {
        order_index_of(ordered.drop_last(), u)
    }
}

/// The identifier of input neuron `i`.
pub fn input_uuid_string(i: usize) -> (r: String)
    ensures
        r@ == input_uuid(i as nat),
{
    let mut s = String::new();
    s.append("input-");
    push_decimal(&mut s, i);
    s
}

/// The evaluation order of a creature: its `input` inputs, then its neurons.
pub fn build_ordered_neurons(input: usize, neurons: &[NeuronInfo]) -> (r: Vec<OrderedNeuron>)
    requires
        input + neurons@.len() <= usize::MAX,
    ensures
        is_creature_order(input as nat, neurons@, r@),
{
    let mut ordered: Vec<OrderedNeuron> = Vec::new();
    let mut i: usize = 0;
    while i < input
        invariant
            i <= input,
            ordered@.len() == i,
            forall|k: int|
                0 <= k < i ==> (#[trigger] ordered@[k]).uuid@ == input_uuid(k as nat)
                    && ordered@[k].index == k,
        decreases input - i,
    {
        ordered.push(OrderedNeuron { uuid: input_uuid_string(i), index: i });
        i = i + 1;
    }
    let mut j: usize = 0;
    while j < neurons.len()
        invariant
            input + neurons@.len() <= usize::MAX,
            j <= neurons@.len(),
            ordered@.len() == input + j,
            forall|k: int|
                0 <= k < input ==> (#[trigger] ordered@[k]).uuid@ == input_uuid(k as nat)
                    && ordered@[k].index == k,
            forall|k: int|
                0 <= k < j ==> (#[trigger] ordered@[input + k]).uuid@ == neurons@[k].uuid@
                    && ordered@[input + k].index == input + k,
        decreases neurons@.len() - j,
    {
        ordered.push(OrderedNeuron { uuid: neurons[j].uuid.clone(), index: input + j });
        j = j + 1;
    }
    ordered
}

/// The position in `neurons` of the last neuron named `u`.
fn find_last_neuron(neurons: &[NeuronInfo], u: &str) -> (r: Option<usize>)
    ensures
        match r {
            Some(j) => j < neurons@.len() && last_neuron_with_uuid(neurons@, u@) == Some(
                neurons@[j as int],
            ),
            None => last_neuron_with_uuid(neurons@, u@) is None,
        },
{
    let mut j: usize = neurons.len();
    assert(neurons@.take(j as int) =~= neurons@);
    while j > 0
        invariant
            j <= neurons@.len(),
            last_neuron_with_uuid(neurons@, u@) == last_neuron_with_uuid(
                neurons@.take(j as int),
                u@,
            ),
        decreases j,
    {
        if str_eq(neurons[j - 1].uuid.as_str(), u) {
            assert(neurons@.take(j as int).last() == neurons@[j - 1]);
            return Some(j - 1);
        }
        assert(neurons@.take(j as int).drop_last() =~= neurons@.take(j - 1));
        j = j - 1;
    }
    None
}

/// Whether `u` names one of the first `input` input neurons.
fn names_input(input: usize, u: &str) -> (r: bool)
    ensures
        r == is_input_uuid(input as nat, u@),
{
    let mut i: usize = 0;
    while i < input
        invariant
            i <= input,
            forall|k: nat| k < i ==> u@ != #[trigger] input_uuid(k),
        decreases input - i,
    {
        let candidate = input_uuid_string(i);
        if str_eq(candidate.as_str(), u) {
            return true;
        }
        i = i + 1;
    }
    false
}

/// The type of the neuron named `u` (see [`neuron_type_of`]).
pub fn neuron_type(input: usize, neurons: &[NeuronInfo], u: &str) -> (r: Option<String>)
    ensures
        match r {
            Some(t) => neuron_type_of(input as nat, neurons@, u@) == Some(t@),
            None => neuron_type_of(input as nat, neurons@, u@) is None,
        },
{
    match find_last_neuron(neurons, u) {
        Some(j) => Some(neurons[j].neuron_type.clone()),
        None => {
            if names_input(input, u) {
                Some(String::from_str("input"))
            } else {
                None
            }
        },
    }
}

/// The position of the last ordered neuron named `u`.
pub fn order_index(ordered: &[OrderedNeuron], u: &str) -> (r: Option<usize>)
    ensures
        r == order_index_of(ordered@, u@),
{
    let mut j: usize = ordered.len();
    assert(ordered@.take(j as int) =~= ordered@);
    while j > 0
        invariant
            j <= ordered@.len(),
            order_index_of(ordered@, u@) == order_index_of(ordered@.take(j as int), u@),
        decreases j,
    {
        if str_eq(ordered[j - 1].uuid.as_str(), u) {
            assert(ordered@.take(j as int).last() == ordered@[j - 1]);
            return Some(ordered[j - 1].index);
        }
        assert(ordered@.take(j as int).drop_last() =~= ordered@.take(j - 1));
        j = j - 1;
    }
    None
}

/// Randomises the order of `v` in place.
///
/// Calls `SliceRandom::shuffle` with `rand::thread_rng()`. The order that comes
/// out depends on the random generator; the contract states only what holds of
/// every outcome: the same items, each as often as before. `thread_rng` panics
/// only when the operating system's random source cannot seed it.
#[verifier::external_body]
fn shuffle<T>(v: &mut Vec<T>)
    ensures
        final(v)@.to_multiset() == old(v)@.to_multiset(),
        final(v)@.len() == old(v)@.len(),
{
    let mut rng = rand::thread_rng();
    v.shuffle(&mut rng);
}

// ---------------------------------------------------------------------------
// Focus lists
// ---------------------------------------------------------------------------

/// Whether synapse analysis skips the focus neuron named `u`: it is a listed
/// neuron whose squash is a threshold squash.
pub open spec fn skips_for_synapses(neurons: Seq<NeuronInfo>, u: Seq<char>) -> bool {
    match squash_of(neurons, u) {
        Some(sq) => threshold_of_squash(sq).is_some(),
        None => false,
    }
}

/// Focus positions that synapse analysis keeps.
pub open spec fn synapse_keeps(neurons: Seq<NeuronInfo>, focus: Seq<String>) -> spec_fn(int) -> bool {
    |k: int| !skips_for_synapses(neurons, focus[k]@)
}

/// Focus positions that synapse analysis skips.
pub open spec fn synapse_skips(neurons: Seq<NeuronInfo>, focus: Seq<String>) -> spec_fn(int) -> bool {
    |k: int| skips_for_synapses(neurons, focus[k]@)
}

/// The focus positions synapse analysis keeps and skips, each in focus order.
#[derive(Clone, Debug)]
pub struct SynapseFocusSplit {
    pub kept: Vec<usize>,
    pub skipped: Vec<usize>,
}

/// Whether the listed neuron named `u` has a threshold squash.
fn has_threshold_squash(neurons: &[NeuronInfo], u: &str) -> (r: bool)
    ensures
        r == skips_for_synapses(neurons@, u@),
{
    match find_last_neuron(neurons, u) {
        Some(j) => is_threshold_activation(neurons[j].squash.as_str()),
        None => false,
    }
}

/// Splits the focus list of synapse analysis: neurons with a threshold squash
/// are skipped, because the linear error model does not fit them.
pub fn split_synapse_focus(neurons: &[NeuronInfo], focus: &[String]) -> (r: SynapseFocusSplit)
    ensures
        r.kept@ == positions_where(focus@.len(), synapse_keeps(neurons@, focus@)),
        r.skipped@ == positions_where(focus@.len(), synapse_skips(neurons@, focus@)),
{
    let ghost keep = synapse_keeps(neurons@, focus@);
    let ghost skip = synapse_skips(neurons@, focus@);
    let mut kept: Vec<usize> = Vec::new();
    let mut skipped: Vec<usize> = Vec::new();
    let mut k: usize = 0;
    while k < focus.len()
        invariant
            k <= focus@.len(),
            keep == synapse_keeps(neurons@, focus@),
            skip == synapse_skips(neurons@, focus@),
            kept@ == positions_where(k as nat, keep),
            skipped@ == positions_where(k as nat, skip),
        decreases focus@.len() - k,
    {
        if has_threshold_squash(neurons, focus[k].as_str()) {
            skipped.push(k);
        } else {
            kept.push(k);
        }
        k = k + 1;
    }
    SynapseFocusSplit { kept, skipped }
}

/// The focus list of synapse analysis in the order it is worked through: the
/// kept positions in random order, and the skipped positions in focus order.
pub fn synapse_focus_order(neurons: &[NeuronInfo], focus: &[String]) -> (r: SynapseFocusSplit)
    ensures
        r.kept@.to_multiset() == positions_where(
            focus@.len(),
            synapse_keeps(neurons@, focus@),
        ).to_multiset(),
        r.skipped@ == positions_where(focus@.len(), synapse_skips(neurons@, focus@)),
{
    let mut split = split_synapse_focus(neurons, focus);
    shuffle(&mut split.kept);
    split
}

/// The role of a focus neuron in add-neuron analysis.
#[derive(Clone, Copy, Debug, PartialEq, Eq, Structural)]
pub enum FocusRole {
    /// An output neuron: a target.
    Output,
    /// An input neuron: an observation source, skipped.
    Input,
    /// A hidden or constant neuron, or one the creature does not list: skipped.
    Other,
}

/// The role of the focus neuron named `u`.
pub open spec fn focus_role(input: nat, neurons: Seq<NeuronInfo>, u: Seq<char>) -> FocusRole {
    match neuron_type_of(input, neurons, u) {
        Some(t) => if t == "output"@ {
            FocusRole::Output
        } else if t == "input"@ {
            FocusRole::Input
        } else {
            FocusRole::Other
        },
        None => FocusRole::Other,
    }
}

/// Focus positions whose role is `role`.
pub open spec fn has_role(input: nat, neurons: Seq<NeuronInfo>, focus: Seq<String>, role: FocusRole) -> spec_fn(int) -> bool {
    |k: int| focus_role(input, neurons, focus[k]@) == role
}

/// Focus positions of output neurons with a threshold squash.
pub open spec fn threshold_output(input: nat, neurons: Seq<NeuronInfo>, focus: Seq<String>) -> spec_fn(int) -> bool {
    |k: int| focus_role(input, neurons, focus[k]@) == FocusRole::Output && skips_for_synapses(neurons, focus[k]@)
}

/// The role of the focus neuron named `u`.
pub fn focus_role_of(input: usize, neurons: &[NeuronInfo], u: &str) -> (r: FocusRole)
    ensures
        r == focus_role(input as nat, neurons@, u@),
{
    match neuron_type(input, neurons, u) {
        Some(t) => {
            if str_eq(t.as_str(), "output") {
                FocusRole::Output
            } else if str_eq(t.as_str(), "input") {
                FocusRole::Input
            } else {
                FocusRole::Other
            }
        },
        None => FocusRole::Other,
    }
}

/// The focus positions of add-neuron analysis by role, each in focus order,
/// and the output positions whose squash is a threshold squash.
#[derive(Clone, Debug)]
pub struct NeuronFocusSplit {
    pub targets: Vec<usize>,
    pub skipped_input: Vec<usize>,
    pub skipped_hidden: Vec<usize>,
    pub threshold_targets: Vec<usize>,
}

/// Splits the focus list of add-neuron analysis: only output neurons are
/// targets; input neurons and all others are skipped, each list apart.
pub fn split_neuron_focus(input: usize, neurons: &[NeuronInfo], focus: &[String]) -> (r: NeuronFocusSplit)
    ensures
        r.targets@ == positions_where(
            focus@.len(),
            has_role(input as nat, neurons@, focus@, FocusRole::Output),
        ),
        r.skipped_input@ == positions_where(
            focus@.len(),
            has_role(input as nat, neurons@, focus@, FocusRole::Input),
        ),
        r.skipped_hidden@ == positions_where(
            focus@.len(),
            has_role(input as nat, neurons@, focus@, FocusRole::Other),
        ),
        r.threshold_targets@ == positions_where(
            focus@.len(),
            threshold_output(input as nat, neurons@, focus@),
        ),
{
    let ghost out = has_role(input as nat, neurons@, focus@, FocusRole::Output);
    let ghost inp = has_role(input as nat, neurons@, focus@, FocusRole::Input);
    let ghost oth = has_role(input as nat, neurons@, focus@, FocusRole::Other);
    let ghost thr = threshold_output(input as nat, neurons@, focus@);
    let mut split = NeuronFocusSplit {
        targets: Vec::new(),
        skipped_input: Vec::new(),
        skipped_hidden: Vec::new(),
        threshold_targets: Vec::new(),
    };
    let mut k: usize = 0;
    while k < focus.len()
        invariant
            k <= focus@.len(),
            out == has_role(input as nat, neurons@, focus@, FocusRole::Output),
            inp == has_role(input as nat, neurons@, focus@, FocusRole::Input),
            oth == has_role(input as nat, neurons@, focus@, FocusRole::Other),
            thr == threshold_output(input as nat, neurons@, focus@),
            split.targets@ == positions_where(k as nat, out),
            split.skipped_input@ == positions_where(k as nat, inp),
            split.skipped_hidden@ == positions_where(k as nat, oth),
            split.threshold_targets@ == positions_where(k as nat, thr),
        decreases focus@.len() - k,
    {
        let u = focus[k].as_str();
        match focus_role_of(input, neurons, u) {
            FocusRole::Output => {
                split.targets.push(k);
                if has_threshold_squash(neurons, u) {
                    split.threshold_targets.push(k);
                }
            },
            FocusRole::Input => {
                split.skipped_input.push(k);
            },
            FocusRole::Other => {
                split.skipped_hidden.push(k);
            },
        }
        k = k + 1;
    }
    split
}

/// The focus list of add-neuron analysis in the order it is worked through:
/// the targets in random order, every other list in focus order.
pub fn neuron_focus_order(input: usize, neurons: &[NeuronInfo], focus: &[String]) -> (r: NeuronFocusSplit)
    ensures
        r.targets@.to_multiset() == positions_where(
            focus@.len(),
            has_role(input as nat, neurons@, focus@, FocusRole::Output),
        ).to_multiset(),
        r.skipped_input@ == positions_where(
            focus@.len(),
            has_role(input as nat, neurons@, focus@, FocusRole::Input),
        ),
        r.skipped_hidden@ == positions_where(
            focus@.len(),
            has_role(input as nat, neurons@, focus@, FocusRole::Other),
        ),
        r.threshold_targets@ == positions_where(
            focus@.len(),
            threshold_output(input as nat, neurons@, focus@),
        ),
{
    let mut split = split_neuron_focus(input, neurons, focus);
    shuffle(&mut split.targets);
    split
}

/// Every focus neuron has exactly one role: the three role lists together
/// are as long as the focus list.
pub proof fn lemma_focus_roles_partition(input: nat, neurons: Seq<NeuronInfo>, focus: Seq<String>, n: nat)
    requires
        n <= focus.len(),
    ensures
        positions_where(n, has_role(input, neurons, focus, FocusRole::Output)).len()
            + positions_where(n, has_role(input, neurons, focus, FocusRole::Input)).len()
            + positions_where(n, has_role(input, neurons, focus, FocusRole::Other)).len() == n,
    decreases n,
{
    if n > 0 {
        lemma_focus_roles_partition(input, neurons, focus, (n - 1) as nat);
    }
}

// ---------------------------------------------------------------------------
// Sources of one target
// ---------------------------------------------------------------------------

/// Ordered positions that come before the target at `target_index`.
pub open spec fn precedes(ordered: Seq<OrderedNeuron>, target_index: usize) -> spec_fn(int) -> bool {
    |k: int| ordered[k].index < target_index
}

/// The sources add-neuron analysis considers for the target at
/// `target_index`: every ordered neuron before it, in order.
pub fn neuron_eligible_sources(ordered: &[OrderedNeuron], target_index: usize) -> (r: Vec<usize>)
    ensures
        r@ == positions_where(ordered@.len(), precedes(ordered@, target_index)),
{
    let ghost pred = precedes(ordered@, target_index);
    let mut out: Vec<usize> = Vec::new();
    let mut k: usize = 0;
    while k < ordered.len()
        invariant
            k <= ordered@.len(),
            pred == precedes(ordered@, target_index),
            out@ == positions_where(k as nat, pred),
        decreases ordered@.len() - k,
    {
        if ordered[k].index < target_index {
            out.push(k);
        }
        k = k + 1;
    }
    out
}

/// The sources of add-neuron analysis for the target at `target_index`, in
/// the random order they are worked through.
pub fn neuron_source_order(ordered: &[OrderedNeuron], target_index: usize) -> (r: Vec<usize>)
    ensures
        r@.to_multiset() == positions_where(ordered@.len(), precedes(ordered@, target_index)).to_multiset(),
{
    let mut sources = neuron_eligible_sources(ordered, target_index);
    shuffle(&mut sources);
    sources
}

/// Whether the ordered neuron `o` may feed a new synapse into the target at
/// `target_index`: it comes earlier and is a known neuron that is not a constant.
pub open spec fn is_synapse_source(input: nat, neurons: Seq<NeuronInfo>, o: OrderedNeuron, target_index: usize) -> bool {
    &&& o.index < target_index
    &&& match neuron_type_of(input, neurons, o.uuid@) {
        Some(t) => t != "constant"@,
        None => false,
    }
}

/// Ordered positions that may feed a new synapse into the target at `target_index`.
pub open spec fn synapse_source(input: nat, neurons: Seq<NeuronInfo>, ordered: Seq<OrderedNeuron>, target_index: usize) -> spec_fn(int) -> bool {
    |k: int| is_synapse_source(input, neurons, ordered[k], target_index)
}

/// The synapse sources among them that are input neurons.
pub open spec fn input_synapse_source(input: nat, neurons: Seq<NeuronInfo>, ordered: Seq<OrderedNeuron>, target_index: usize) -> spec_fn(int) -> bool {
    |k: int| is_synapse_source(input, neurons, ordered[k], target_index) && is_input_uuid(input, ordered[k].uuid@)
}

/// Why synapse analysis leaves a target without looking at its sources.
#[derive(Clone, Copy, Debug, PartialEq, Eq, Structural)]
pub enum SynapseTargetSkip {
    /// The target is not in the creature's evaluation order.
    NotOrdered,
    /// The target is an input or a constant: nothing feeds it.
    InputOrConstant,
    /// No earlier neuron can feed it.
    NoEligibleSources,
}

/// The sources synapse analysis considers for a target.
#[derive(Clone, Debug)]
pub struct SynapseSources {
    /// The target's position in the evaluation order.
    pub target_index: usize,
    /// Ordered positions of the eligible sources, in order.
    pub eligible: Vec<usize>,
    /// How many eligible sources are input neurons.
    pub input_neuron_count: usize,
}

/// What synapse analysis does with one target.
#[derive(Clone, Debug)]
pub enum SynapseTargetPlan {
    Skip(SynapseTargetSkip),
    Sources(SynapseSources),
}

/// A focus target that is in the evaluation order but whose type is unknown:
/// the creature's data contradict each other.
#[derive(Clone, Copy, Debug, PartialEq, Eq, Structural)]
pub struct UnknownTarget;

/// Whether the listed or input neuron named `u` is a known non-constant neuron.
fn is_known_non_constant(input: usize, neurons: &[NeuronInfo], u: &str) -> (r: bool)
    ensures
        r == match neuron_type_of(input as nat, neurons@, u@) {
            Some(t) => t != "constant"@,
            None => false,
        },
{
    match neuron_type(input, neurons, u) {
        Some(t) => !str_eq(t.as_str(), "constant"),
        None => false,
    }
}

/// The eligible synapse sources of the target at `target_index`, in order,
/// with how many of them are input neurons.
fn synapse_eligible_sources(
    input: usize,
    neurons: &[NeuronInfo],
    ordered: &[OrderedNeuron],
    target_index: usize,
) -> (r: (Vec<usize>, usize))
    ensures
        r.0@ == positions_where(ordered@.len(), synapse_source(input as nat, neurons@, ordered@, target_index)),
        r.1 == positions_where(
            ordered@.len(),
            input_synapse_source(input as nat, neurons@, ordered@, target_index),
        ).len(),
{
    let ghost pred = synapse_source(input as nat, neurons@, ordered@, target_index);
    let ghost ipred = input_synapse_source(input as nat, neurons@, ordered@, target_index);
    let mut out: Vec<usize> = Vec::new();
    let mut inputs: Vec<usize> = Vec::new();
    let mut k: usize = 0;
    while k < ordered.len()
        invariant
            k <= ordered@.len(),
            pred == synapse_source(input as nat, neurons@, ordered@, target_index),
            ipred == input_synapse_source(input as nat, neurons@, ordered@, target_index),
            out@ == positions_where(k as nat, pred),
            inputs@ == positions_where(k as nat, ipred),
        decreases ordered@.len() - k,
    {
        let o = &ordered[k];
        if o.index < target_index && is_known_non_constant(input, neurons, o.uuid.as_str()) {
            out.push(k);
            if names_input(input, o.uuid.as_str()) {
                inputs.push(k);
            }
        }
        k = k + 1;
    }
    (out, inputs.len())
}

/// What synapse analysis does with the focus target named `target`, once its
/// own records are known to be there.
///
/// A target outside the evaluation order is skipped; one in it whose type is
/// unknown is an error; inputs and constants are skipped, as is a target no
/// earlier neuron can feed. Otherwise the eligible sources are every earlier
/// known neuron that is not a constant.
pub fn plan_synapse_target(
    input: usize,
    neurons: &[NeuronInfo],
    ordered: &[OrderedNeuron],
    target: &str,
) -> (r: Result<SynapseTargetPlan, UnknownTarget>)
    ensures
        order_index_of(ordered@, target@) is None ==> r == Ok::<SynapseTargetPlan, UnknownTarget>(
            SynapseTargetPlan::Skip(SynapseTargetSkip::NotOrdered),
        ),
        order_index_of(ordered@, target@) matches Some(ti) ==> match neuron_type_of(
            input as nat,
            neurons@,
            target@,
        ) {
            None => r is Err,
            Some(t) => if t == "input"@ || t == "constant"@ {
                r == Ok::<SynapseTargetPlan, UnknownTarget>(
                    SynapseTargetPlan::Skip(SynapseTargetSkip::InputOrConstant),
                )
            } else if positions_where(
                ordered@.len(),
                synapse_source(input as nat, neurons@, ordered@, ti),
            ).len() == 0 {
                r == Ok::<SynapseTargetPlan, UnknownTarget>(
                    SynapseTargetPlan::Skip(SynapseTargetSkip::NoEligibleSources),
                )
            } else {
                &&& r matches Ok(SynapseTargetPlan::Sources(p))
                &&& p.target_index == ti
                &&& p.eligible@ == positions_where(
                    ordered@.len(),
                    synapse_source(input as nat, neurons@, ordered@, ti),
                )
                &&& p.input_neuron_count == positions_where(
                    ordered@.len(),
                    input_synapse_source(input as nat, neurons@, ordered@, ti),
                ).len()
            },
        },
{
    let target_index = match order_index(ordered, target) {
        Some(i) => i,
        None => {
            return Ok(SynapseTargetPlan::Skip(SynapseTargetSkip::NotOrdered));
        },
    };
    let target_type = match neuron_type(input, neurons, target) {
        Some(t) => t,
        None => {
            return Err(UnknownTarget);
        },
    };
    if str_eq(target_type.as_str(), "input") || str_eq(target_type.as_str(), "constant") {
        return Ok(SynapseTargetPlan::Skip(SynapseTargetSkip::InputOrConstant));
    }
    let (eligible, input_neuron_count) = synapse_eligible_sources(
        input,
        neurons,
        ordered,
        target_index,
    );
    if eligible.len() == 0 {
        return Ok(SynapseTargetPlan::Skip(SynapseTargetSkip::NoEligibleSources));
    }
    Ok(SynapseTargetPlan::Sources(SynapseSources { target_index, eligible, input_neuron_count }))
}

/// The two ends of an existing synapse.
#[derive(Clone, Debug)]
pub struct SynapseEnds {
    pub from_uuid: String,
    pub to_uuid: String,
}

/// Whether some existing synapse runs from `from` to `to`.
pub open spec fn is_connected(existing: Seq<SynapseEnds>, from: Seq<char>, to: Seq<char>) -> bool {
    exists|k: int| 0 <= k < existing.len() && (#[trigger] existing[k]).from_uuid@ == from && existing[k].to_uuid@ == to
}

/// Source positions already connected to `target`.
pub open spec fn connected_to(existing: Seq<SynapseEnds>, ordered: Seq<OrderedNeuron>, target: Seq<char>) -> spec_fn(usize) -> bool {
    |p: usize| is_connected(existing, ordered[p as int].uuid@, target)
}

/// Source positions not yet connected to `target`.
pub open spec fn unconnected_to(existing: Seq<SynapseEnds>, ordered: Seq<OrderedNeuron>, target: Seq<char>) -> spec_fn(usize) -> bool {
    |p: usize| !is_connected(existing, ordered[p as int].uuid@, target)
}

/// Whether some existing synapse runs from `from` to `to`.
fn connected(existing: &[SynapseEnds], from: &str, to: &str) -> (r: bool)
    ensures
        r == is_connected(existing@, from@, to@),
{
    let mut k: usize = 0;
    while k < existing.len()
        invariant
            k <= existing@.len(),
            forall|j: int| 0 <= j < k ==> !((#[trigger] existing@[j]).from_uuid@ == from@ && existing@[j].to_uuid@ == to@),
        decreases existing@.len() - k,
    {
        if str_eq(existing[k].from_uuid.as_str(), from) && str_eq(existing[k].to_uuid.as_str(), to) {
            return true;
        }
        k = k + 1;
    }
    false
}

/// Splits the sources of `target` into those an existing synapse already
/// connects (counted) and the others (kept, in the given order).
pub fn split_connected_sources(
    existing: &[SynapseEnds],
    ordered: &[OrderedNeuron],
    target: &str,
    sources: &[usize],
) -> (r: (usize, Vec<usize>))
    requires
        forall|k: int| 0 <= k < sources@.len() ==> (#[trigger] sources@[k]) < ordered@.len(),
    ensures
        r.0 == sources@.filter(connected_to(existing@, ordered@, target@)).len(),
        r.1@ == sources@.filter(unconnected_to(existing@, ordered@, target@)),
{
    let ghost conn = connected_to(existing@, ordered@, target@);
    let ghost unconn = unconnected_to(existing@, ordered@, target@);
    let mut count: usize = 0;
    let mut rest: Vec<usize> = Vec::new();
    let mut k: usize = 0;
    while k < sources.len()
        invariant
            k <= sources@.len(),
            forall|j: int| 0 <= j < sources@.len() ==> (#[trigger] sources@[j]) < ordered@.len(),
            conn == connected_to(existing@, ordered@, target@),
            unconn == unconnected_to(existing@, ordered@, target@),
            count == sources@.take(k as int).filter(conn).len(),
            rest@ == sources@.take(k as int).filter(unconn),
        decreases sources@.len() - k,
    {
        let p = sources[k];
        proof {
            assert(sources@.take(k + 1) =~= sources@.take(k as int).push(p));
            sources@.take(k as int).lemma_filter_push(p, conn);
            sources@.take(k as int).lemma_filter_push(p, unconn);
            sources@.take(k as int).filter(conn).lemma_filter_len(conn);
        }
        if connected(existing, ordered[p].uuid.as_str(), target) {
            count = count + 1;
        } else {
            rest.push(p);
        }
        k = k + 1;
    }
    assert(sources@.take(sources@.len() as int) =~= sources@);
    (count, rest)
}

/// The sources of `target` that synapse analysis still has to evaluate, in
/// the random order it works through them, and how many of the eligible
/// sources an existing synapse already connects.
pub fn synapse_source_order(
    existing: &[SynapseEnds],
    ordered: &[OrderedNeuron],
    target: &str,
    eligible: &[usize],
) -> (r: (usize, Vec<usize>))
    requires
        forall|k: int| 0 <= k < eligible@.len() ==> (#[trigger] eligible@[k]) < ordered@.len(),
    ensures
        r.0 == eligible@.filter(connected_to(existing@, ordered@, target@)).len(),
        r.1@.to_multiset() == eligible@.filter(unconnected_to(existing@, ordered@, target@)).to_multiset(),
{
    let (count, mut rest) = split_connected_sources(existing, ordered, target, eligible);
    shuffle(&mut rest);
    (count, rest)
}

/// A synapse source always comes before its target and is a known neuron that
/// is not a constant; an earlier known non-constant neuron is always a source.
pub proof fn lemma_synapse_sources_precede(
    input: nat,
    neurons: Seq<NeuronInfo>,
    ordered: Seq<OrderedNeuron>,
    target_index: usize,
)
    requires
        ordered.len() <= usize::MAX,
    ensures
        forall|k: int|
            0 <= k < ordered.len() ==> (positions_where(
                ordered.len(),
                synapse_source(input, neurons, ordered, target_index),
            ).contains(k as usize) <==> #[trigger] is_synapse_source(input, neurons, ordered[k], target_index)),
        forall|j: int|
            0 <= j < positions_where(ordered.len(), synapse_source(input, neurons, ordered, target_index)).len()
                ==> #[trigger] ordered[positions_where(
                ordered.len(),
                synapse_source(input, neurons, ordered, target_index),
            )[j] as int].index < target_index,
{
    let pred = synapse_source(input, neurons, ordered, target_index);
    lemma_positions_where(ordered.len(), pred);
    let sel = positions_where(ordered.len(), pred);
    assert forall|k: int| 0 <= k < ordered.len() implies (sel.contains(k as usize) <==> #[trigger] is_synapse_source(input, neurons, ordered[k], target_index)) by {
        assert(pred(k) == is_synapse_source(input, neurons, ordered[k], target_index));
    }
    assert forall|j: int| 0 <= j < sel.len() implies #[trigger] ordered[sel[j] as int].index < target_index by {
        assert(sel.contains(sel[j]));
        assert(pred(sel[j] as int));
    }
}

/// Every eligible source is counted once: either already connected, or left
/// to evaluate.
pub proof fn lemma_connected_split_covers(
    existing: Seq<SynapseEnds>,
    ordered: Seq<OrderedNeuron>,
    target: Seq<char>,
    sources: Seq<usize>,
)
    ensures
        sources.filter(connected_to(existing, ordered, target)).len() + sources.filter(
            unconnected_to(existing, ordered, target),
        ).len() == sources.len(),
    decreases sources.len(),
{
    if sources.len() > 0 {
        let conn = connected_to(existing, ordered, target);
        let unconn = unconnected_to(existing, ordered, target);
        let init = sources.drop_last();
        lemma_connected_split_covers(existing, ordered, target, init);
        assert(init.push(sources.last()) =~= sources);
        init.lemma_filter_push(sources.last(), conn);
        init.lemma_filter_push(sources.last(), unconn);
    }
}

/// Which earlier neurons feed a synapse target, by their type alone: an
/// earlier neuron whose type is known is an eligible source exactly when its
/// type is not `"constant"`; so earlier inputs, hidden and output neurons all
/// are, and an earlier neuron of unknown type or any later neuron never is.
pub proof fn lemma_synapse_sources_by_type(
    input: nat,
    neurons: Seq<NeuronInfo>,
    ordered: Seq<OrderedNeuron>,
    target_index: usize,
)
    requires
        ordered.len() <= usize::MAX,
    ensures
        forall|k: int|
            0 <= k < ordered.len() ==> (#[trigger] positions_where(
                ordered.len(),
                synapse_source(input, neurons, ordered, target_index),
            ).contains(k as usize) <==> (ordered[k].index < target_index && neuron_type_of(
                input,
                neurons,
                ordered[k].uuid@,
            ) is Some && neuron_type_of(input, neurons, ordered[k].uuid@) != Some("constant"@))),
        forall|k: int|
            0 <= k < ordered.len() && ordered[k].index < target_index && (neuron_type_of(
                input,
                neurons,
                ordered[k].uuid@,
            ) == Some("output"@) || neuron_type_of(input, neurons, ordered[k].uuid@) == Some(
                "hidden"@,
            ) || neuron_type_of(input, neurons, ordered[k].uuid@) == Some("input"@))
                ==> #[trigger] positions_where(
                ordered.len(),
                synapse_source(input, neurons, ordered, target_index),
            ).contains(k as usize),
{
    reveal_strlit("constant");
    reveal_strlit("output");
    reveal_strlit("hidden");
    reveal_strlit("input");
    assert("constant"@.len() == 8 && "output"@.len() == 6 && "hidden"@.len() == 6 && "input"@.len() == 5);
    let pred = synapse_source(input, neurons, ordered, target_index);
    lemma_positions_where(ordered.len(), pred);
    assert forall|k: int| 0 <= k < ordered.len() implies (#[trigger] positions_where(
        ordered.len(),
        pred,
    ).contains(k as usize) <==> (ordered[k].index < target_index && neuron_type_of(
        input,
        neurons,
        ordered[k].uuid@,
    ) is Some && neuron_type_of(input, neurons, ordered[k].uuid@) != Some("constant"@))) by {
        assert(pred(k) == is_synapse_source(input, neurons, ordered[k], target_index));
    }
}

} // verus!
