//! Activation candidate families, GPU shader ids, and which families a scan
//! looks at for a given target.
//!
//! The families are identified by their position in [`ACTIVATION_SPEC_NAMES`];
//! every scan-set selection below returns positions into that table, in table
//! order.
use vstd::prelude::*;

use crate::positions::{lemma_positions_where, lemma_positions_where_all, positions_where};
use crate::text::{eq_ignore_ascii_case, str_eq, str_eq_ignore_ascii_case};

verus! {

/// Number of activation families proposed for new neurons.
pub const ACTIVATION_SPEC_COUNT: usize = 15;

/// Names of the activation families proposed for new neurons, in scan order.
///
/// LeakyReLU, Swish and SELU are deliberately not proposed: in value-domain
/// discovery they behave too much like ReLU to be worth the scan budget.
pub const ACTIVATION_SPEC_NAMES: [&'static str; 15] = [
    "GELU",
    "ELU",
    "Softplus",
    "LOGISTIC",
    "TANH",
    "IDENTITY",
    "BIPOLAR",
    "CLIPPED",
    "ABSOLUTE",
    "Mish",
    "HARD_TANH",
    "SOFTSIGN",
    "BENT_IDENTITY",
    "ArcTan",
    "ReLU6",
];

/// Names of the bounded-squash families offered when scanning an **output**
/// neuron under a `OneHot` or `Simplex` target topology. Names absent from
/// [`ACTIVATION_SPEC_NAMES`] (`STEP` today) are skipped.
pub const BOUNDED_OUTPUT_SCAN_NAMES: [&'static str; 3] = ["LOGISTIC", "STEP", "BIPOLAR"];

/// Core hidden-neuron scan set used at cold start: the linear and ReLU-like
/// families, the smooth workhorses, and the families with accepted discoveries.
pub const CORE_HIDDEN_SCAN_NAMES: [&'static str; 9] = [
    "IDENTITY",
    "GELU",
    "ELU",
    "ReLU6",
    "TANH",
    "Mish",
    "HARD_TANH",
    "SOFTSIGN",
    "BENT_IDENTITY",
];

/// The name of the activation family at position `i`.
pub open spec fn spec_name(i: int) -> Seq<char> {
    ACTIVATION_SPEC_NAMES@[i]@
}

/// The GPU shader id of an activation name (case-sensitive); unknown names
/// fall back to IDENTITY's id, 6.
pub open spec fn gpu_id_named(n: Seq<char>) -> u32 {
    if n == "GELU"@ {
        0
    } else if n == "ELU"@ {
        1
    } else if n == "SELU"@ {
        2
    } else if n == "Softplus"@ {
        3
    } else if n == "LOGISTIC"@ {
        4
    } else if n == "TANH"@ {
        5
    } else if n == "IDENTITY"@ {
        6
    } else if n == "BIPOLAR"@ {
        7
    } else if n == "CLIPPED"@ {
        8
    } else if n == "ABSOLUTE"@ {
        9
    } else if n == "INVERSE"@ {
        10
    } else if n == "LeakyReLU"@ {
        11
    } else if n == "Mish"@ {
        12
    } else if n == "Swish"@ {
        13
    } else if n == "HARD_TANH"@ {
        14
    } else if n == "SOFTSIGN"@ {
        15
    } else if n == "BENT_IDENTITY"@ {
        16
    } else if n == "ArcTan"@ {
        17
    } else if n == "ReLU6"@ {
        18
    } else {
        6
    }
}

/// Maps activation function names to GPU shader IDs.
///
/// These IDs must match the activation implementations in the GPU shaders.
pub fn activation_name_to_gpu_id(name: &str) -> (r: u32)
    ensures
        r == gpu_id_named(name@),
{
    if str_eq(name, "GELU") {
        0
    } else if str_eq(name, "ELU") {
        1
    } else if str_eq(name, "SELU") {
        2
    } else if str_eq(name, "Softplus") {
        3
    } else if str_eq(name, "LOGISTIC") {
        4
    } else if str_eq(name, "TANH") {
        5
    } else if str_eq(name, "IDENTITY") {
        6
    } else if str_eq(name, "BIPOLAR") {
        7
    } else if str_eq(name, "CLIPPED") {
        8
    } else if str_eq(name, "ABSOLUTE") {
        9
    } else if str_eq(name, "INVERSE") {
        10
    } else if str_eq(name, "LeakyReLU") {
        11
    } else if str_eq(name, "Mish") {
        12
    } else if str_eq(name, "Swish") {
        13
    } else if str_eq(name, "HARD_TANH") {
        14
    } else if str_eq(name, "SOFTSIGN") {
        15
    } else if str_eq(name, "BENT_IDENTITY") {
        16
    } else if str_eq(name, "ArcTan") {
        17
    } else if str_eq(name, "ReLU6") {
        18
    } else {
        6
    }
}

/// Every name maps to one of the shader ids `0..=18`.
pub proof fn lemma_gpu_id_in_range(n: Seq<char>)
    ensures
        gpu_id_named(n) <= 18,
{
}

/// The family each GPU shader id runs.
pub open spec fn shader_name(id: u32) -> Seq<char> {
    if id == 0 {
        "GELU"@
    } else if id == 1 {
        "ELU"@
    } else if id == 2 {
        "SELU"@
    } else if id == 3 {
        "Softplus"@
    } else if id == 4 {
        "LOGISTIC"@
    } else if id == 5 {
        "TANH"@
    } else if id == 6 {
        "IDENTITY"@
    } else if id == 7 {
        "BIPOLAR"@
    } else if id == 8 {
        "CLIPPED"@
    } else if id == 9 {
        "ABSOLUTE"@
    } else if id == 10 {
        "INVERSE"@
    } else if id == 11 {
        "LeakyReLU"@
    } else if id == 12 {
        "Mish"@
    } else if id == 13 {
        "Swish"@
    } else if id == 14 {
        "HARD_TANH"@
    } else if id == 15 {
        "SOFTSIGN"@
    } else if id == 16 {
        "BENT_IDENTITY"@
    } else if id == 17 {
        "ArcTan"@
    } else if id == 18 {
        "ReLU6"@
    } else {
        "IDENTITY"@
    }
}

/// Shader ids are exact: each of the 19 families runs under its own id, and a
/// name gets an id other than IDENTITY's only when it is that id's family;
/// every other name runs as IDENTITY.
pub proof fn lemma_gpu_ids_are_exact(n: Seq<char>)
    ensures
        forall|id: u32| id <= 18 ==> #[trigger] gpu_id_named(shader_name(id)) == id,
        gpu_id_named(n) != 6 ==> n == shader_name(gpu_id_named(n)),
{
    reveal_strlit("GELU");
    assert("GELU"@.len() == 4 && "GELU"@[0] == 'G' && "GELU"@[1] == 'E');
    reveal_strlit("ELU");
    assert("ELU"@.len() == 3 && "ELU"@[0] == 'E' && "ELU"@[1] == 'L');
    reveal_strlit("SELU");
    assert("SELU"@.len() == 4 && "SELU"@[0] == 'S' && "SELU"@[1] == 'E');
    reveal_strlit("Softplus");
    assert("Softplus"@.len() == 8 && "Softplus"@[0] == 'S' && "Softplus"@[1] == 'o');
    reveal_strlit("LOGISTIC");
    assert("LOGISTIC"@.len() == 8 && "LOGISTIC"@[0] == 'L' && "LOGISTIC"@[1] == 'O');
    reveal_strlit("TANH");
    assert("TANH"@.len() == 4 && "TANH"@[0] == 'T' && "TANH"@[1] == 'A');
    reveal_strlit("IDENTITY");
    assert("IDENTITY"@.len() == 8 && "IDENTITY"@[0] == 'I' && "IDENTITY"@[1] == 'D');
    reveal_strlit("BIPOLAR");
    assert("BIPOLAR"@.len() == 7 && "BIPOLAR"@[0] == 'B' && "BIPOLAR"@[1] == 'I');
    reveal_strlit("CLIPPED");
    assert("CLIPPED"@.len() == 7 && "CLIPPED"@[0] == 'C' && "CLIPPED"@[1] == 'L');
    reveal_strlit("ABSOLUTE");
    assert("ABSOLUTE"@.len() == 8 && "ABSOLUTE"@[0] == 'A' && "ABSOLUTE"@[1] == 'B');
    reveal_strlit("INVERSE");
    assert("INVERSE"@.len() == 7 && "INVERSE"@[0] == 'I' && "INVERSE"@[1] == 'N');
    reveal_strlit("LeakyReLU");
    assert("LeakyReLU"@.len() == 9 && "LeakyReLU"@[0] == 'L' && "LeakyReLU"@[1] == 'e');
    reveal_strlit("Mish");
    assert("Mish"@.len() == 4 && "Mish"@[0] == 'M' && "Mish"@[1] == 'i');
    reveal_strlit("Swish");
    assert("Swish"@.len() == 5 && "Swish"@[0] == 'S' && "Swish"@[1] == 'w');
    reveal_strlit("HARD_TANH");
    assert("HARD_TANH"@.len() == 9 && "HARD_TANH"@[0] == 'H' && "HARD_TANH"@[1] == 'A');
    reveal_strlit("SOFTSIGN");
    assert("SOFTSIGN"@.len() == 8 && "SOFTSIGN"@[0] == 'S' && "SOFTSIGN"@[1] == 'O');
    reveal_strlit("BENT_IDENTITY");
    assert("BENT_IDENTITY"@.len() == 13 && "BENT_IDENTITY"@[0] == 'B' && "BENT_IDENTITY"@[1] == 'E');
    reveal_strlit("ArcTan");
    assert("ArcTan"@.len() == 6 && "ArcTan"@[0] == 'A' && "ArcTan"@[1] == 'r');
    reveal_strlit("ReLU6");
    assert("ReLU6"@.len() == 5 && "ReLU6"@[0] == 'R' && "ReLU6"@[1] == 'e');
    assert forall|id: u32| id <= 18 implies #[trigger] gpu_id_named(shader_name(id)) == id by {
    }
}

/// Role of the neuron being scanned for an activation candidate.
#[derive(Clone, Copy, Debug, PartialEq, Eq, Structural)]
pub enum NeuronRole {
    /// Output (final-layer) neuron: the activation family is constrained by the
    /// cost function via the task's target topology.
    Output,
    /// Hidden (non-output) neuron: the full scan set applies.
    Hidden,
}

/// Shape of the targets a cost function expects.
#[derive(Clone, Copy, Debug, PartialEq, Eq, Structural)]
pub enum TargetTopology {
    /// Each output is an independent value (e.g. MSE, MAE).
    Independent,
    /// Outputs are scored against a margin (e.g. HINGE).
    Margin,
    /// Exactly one output is hot (e.g. CATEGORICAL_ERROR).
    OneHot,
    /// Outputs form a probability simplex (e.g. CROSS_ENTROPY).
    Simplex,
    /// The cost function's target shape is not known.
    Unknown,
}

/// What a scan reads from the task description: the target topology.
#[derive(Clone, Copy, Debug, PartialEq, Eq, Structural)]
pub struct TaskDescriptor {
    pub target_topology: TargetTopology,
}

impl TaskDescriptor {
    /// The descriptor of a task whose cost function is unknown.
    pub fn neutral() -> (r: TaskDescriptor)
        ensures
            r.target_topology == TargetTopology::Unknown,
    {
        TaskDescriptor { target_topology: TargetTopology::Unknown }
    }
}

/// Whether `name` appears in `names` (case-sensitive).
fn name_listed(names: &[&'static str], name: &str) -> (r: bool)
    ensures
        r == exists|k: int| 0 <= k < names@.len() && (#[trigger] names@[k])@ == name@,
{
    let mut k: usize = 0;
    while k < names.len()
        invariant
            k <= names@.len(),
            forall|j: int| 0 <= j < k ==> (#[trigger] names@[j])@ != name@,
        decreases names@.len() - k,
    {
        if str_eq(names[k], name) {
            return true;
        }
        k = k + 1;
    }
    false
}

/// Whether a family name is in the bounded output scan set.
pub open spec fn is_bounded_output_name(n: Seq<char>) -> bool {
    exists|k: int| 0 <= k < 3 && (#[trigger] BOUNDED_OUTPUT_SCAN_NAMES@[k])@ == n
}

/// Whether a family name is in the core hidden scan set.
pub open spec fn is_core_hidden_name(n: Seq<char>) -> bool {
    exists|k: int| 0 <= k < 9 && (#[trigger] CORE_HIDDEN_SCAN_NAMES@[k])@ == n
}

/// Whether a scan for `role` under `descriptor` keeps only bounded families.
pub open spec fn uses_bounded_subset(role: NeuronRole, descriptor: TaskDescriptor) -> bool {
    role == NeuronRole::Output && (descriptor.target_topology == TargetTopology::OneHot
        || descriptor.target_topology == TargetTopology::Simplex)
}

/// The families scanned for `role` under `descriptor`.
pub open spec fn role_scan_pred(role: NeuronRole, descriptor: TaskDescriptor) -> spec_fn(
    int,
) -> bool {
    |i: int| !uses_bounded_subset(role, descriptor) || is_bounded_output_name(spec_name(i))
}

/// Select the activation families to scan for the given neuron role and task.
///
/// An output neuron under a `OneHot` or `Simplex` topology scans only the
/// bounded families ([`BOUNDED_OUTPUT_SCAN_NAMES`]); every other case, hidden
/// neurons included, scans all of [`ACTIVATION_SPEC_NAMES`]. The result holds
/// positions into that table, in table order.
pub fn scan_specs_for_role(role: NeuronRole, descriptor: &TaskDescriptor) -> (r: Vec<usize>)
    ensures
        r@ == positions_where(15, role_scan_pred(role, *descriptor)),
{
    let use_bounded_subset = role == NeuronRole::Output && (descriptor.target_topology
        == TargetTopology::OneHot || descriptor.target_topology == TargetTopology::Simplex);
    let ghost pred = role_scan_pred(role, *descriptor);
    let mut out: Vec<usize> = Vec::new();
    let mut i: usize = 0;
    while i < ACTIVATION_SPEC_COUNT
        invariant
            i <= 15,
            use_bounded_subset == uses_bounded_subset(role, *descriptor),
            pred == role_scan_pred(role, *descriptor),
            out@ == positions_where(i as nat, pred),
        decreases 15 - i,
    {
        let keep = !use_bounded_subset || name_listed(
            &BOUNDED_OUTPUT_SCAN_NAMES,
            ACTIVATION_SPEC_NAMES[i],
        );
        assert(keep == pred(i as int));
        if keep {
            out.push(i);
        }
        i = i + 1;
    }
    out
}

/// Per-creature history and escalation signal that drives hidden-target
/// family pruning.
///
/// The scan set for a hidden add-neuron target is the core set widened with
/// every family the creature has adopted (`successful_squashes`), or the full
/// set while the search is escalated.
pub struct HiddenScanContext<'a> {
    /// Squash family names with non-zero historical success for this creature.
    /// Order and repetition do not matter; the names form a set.
    pub successful_squashes: &'a [String],
    /// When `true`, novelty escalation or a drought restores the full scan set,
    /// so pruning can never permanently starve the search.
    pub escalated: bool,
}

/// Whether a family name matches (ignoring ASCII case) one of the adopted names.
pub open spec fn is_adopted_name(adopted: Seq<String>, n: Seq<char>) -> bool {
    exists|k: int| 0 <= k < adopted.len() && eq_ignore_ascii_case((#[trigger] adopted[k])@, n)
}

/// The families scanned for a hidden target.
pub open spec fn hidden_scan_pred(adopted: Seq<String>, escalated: bool) -> spec_fn(int) -> bool {
    |i: int| escalated || is_core_hidden_name(spec_name(i)) || is_adopted_name(adopted, spec_name(i))
}

/// Whether some adopted name matches `name`, ignoring ASCII case.
fn adopted(names: &[String], name: &str) -> (r: bool)
    ensures
        r == is_adopted_name(names@, name@),
{
    let mut k: usize = 0;
    while k < names.len()
        invariant
            k <= names@.len(),
            forall|j: int| 0 <= j < k ==> !eq_ignore_ascii_case((#[trigger] names@[j])@, name@),
        decreases names@.len() - k,
    {
        if str_eq_ignore_ascii_case(names[k].as_str(), name) {
            return true;
        }
        k = k + 1;
    }
    false
}

impl HiddenScanContext<'_> {
    /// Select the activation families to scan for a **hidden** add-neuron target.
    ///
    /// Escalated: every family. Otherwise: the core families widened with every
    /// family whose name matches an adopted squash (ignoring ASCII case). The
    /// result holds positions into [`ACTIVATION_SPEC_NAMES`], in table order.
    pub fn scan_specs(&self) -> (r: Vec<usize>)
        ensures
            r@ == positions_where(15, hidden_scan_pred(self.successful_squashes@, self.escalated)),
    {
        let ghost pred = hidden_scan_pred(self.successful_squashes@, self.escalated);
        let mut out: Vec<usize> = Vec::new();
        let mut i: usize = 0;
        while i < ACTIVATION_SPEC_COUNT
            invariant
                i <= 15,
                pred == hidden_scan_pred(self.successful_squashes@, self.escalated),
                out@ == positions_where(i as nat, pred),
            decreases 15 - i,
        {
            let name = ACTIVATION_SPEC_NAMES[i];
            let keep = self.escalated || name_listed(&CORE_HIDDEN_SCAN_NAMES, name) || adopted(
                self.successful_squashes,
                name,
            );
            assert(keep == pred(i as int));
            if keep {
                out.push(i);
            }
            i = i + 1;
        }
        out
    }
}


/// Hidden targets, and output targets whose topology does not gate the scan,
/// scan every family in table order.
pub proof fn lemma_ungated_role_scans_everything(role: NeuronRole, descriptor: TaskDescriptor)
    requires
        !uses_bounded_subset(role, descriptor),
    ensures
        positions_where(15, role_scan_pred(role, descriptor)) == Seq::new(15, |i: int| i as usize),
{
    lemma_positions_where_all(15, role_scan_pred(role, descriptor));
}

/// An output target under a `OneHot` or `Simplex` topology scans only bounded
/// families, and among them LOGISTIC and BIPOLAR.
pub proof fn lemma_gated_output_scans_bounded_only(role: NeuronRole, descriptor: TaskDescriptor)
    requires
        uses_bounded_subset(role, descriptor),
    ensures
        forall|k: int|
            0 <= k < positions_where(15, role_scan_pred(role, descriptor)).len()
                ==> is_bounded_output_name(
                spec_name(#[trigger] positions_where(15, role_scan_pred(role, descriptor))[k] as int),
            ),
        positions_where(15, role_scan_pred(role, descriptor)).contains(3),
        positions_where(15, role_scan_pred(role, descriptor)).contains(6),
        spec_name(3) == "LOGISTIC"@,
        spec_name(6) == "BIPOLAR"@,
{
    let pred = role_scan_pred(role, descriptor);
    lemma_positions_where(15, pred);
    let sel = positions_where(15, pred);
    assert forall|k: int| 0 <= k < sel.len() implies is_bounded_output_name(
        spec_name(#[trigger] sel[k] as int),
    ) by {
        assert(sel.contains(sel[k]));
        assert(pred(sel[k] as int));
    }
    assert(BOUNDED_OUTPUT_SCAN_NAMES@[0]@ == spec_name(3));
    assert(pred(3));
    assert(BOUNDED_OUTPUT_SCAN_NAMES@[2]@ == spec_name(6));
    assert(pred(6));
}

/// An escalated hidden scan restores every family.
pub proof fn lemma_escalated_hidden_scans_everything(adopted: Seq<String>)
    ensures
        positions_where(15, hidden_scan_pred(adopted, true)) == Seq::new(15, |i: int| i as usize),
{
    lemma_positions_where_all(15, hidden_scan_pred(adopted, true));
}

/// The role-and-task scan gates only output neurons: a hidden neuron scans
/// every family, in table order, whatever the target topology, and so does an
/// output neuron whose topology is neither one-hot nor a simplex.
pub proof fn lemma_only_bounded_outputs_are_gated(role: NeuronRole, descriptor: TaskDescriptor)
    requires
        role == NeuronRole::Hidden || (descriptor.target_topology != TargetTopology::OneHot
            && descriptor.target_topology != TargetTopology::Simplex),
    ensures
        positions_where(15, role_scan_pred(role, descriptor)) == Seq::new(15, |i: int| i as usize),
{
    lemma_positions_where_all(15, role_scan_pred(role, descriptor));
}

/// A hidden scan never prunes below the core set, and at cold start (no
/// adopted family, not escalated) it is exactly the core set.
pub proof fn lemma_hidden_scan_keeps_core(adopted: Seq<String>, escalated: bool)
    ensures
        forall|i: int|
            0 <= i < 15 && is_core_hidden_name(#[trigger] spec_name(i)) ==> positions_where(
                15,
                hidden_scan_pred(adopted, escalated),
            ).contains(i as usize),
        (adopted.len() == 0 && !escalated) ==> forall|i: int|
            0 <= i < 15 ==> (positions_where(15, hidden_scan_pred(adopted, escalated)).contains(
                i as usize,
            ) <==> is_core_hidden_name(#[trigger] spec_name(i))),
{
    let pred = hidden_scan_pred(adopted, escalated);
    lemma_positions_where(15, pred);
    assert forall|i: int| 0 <= i < 15 && is_core_hidden_name(#[trigger] spec_name(i)) implies positions_where(
        15,
        pred,
    ).contains(i as usize) by {
        assert(pred(i));
    }
    if adopted.len() == 0 && !escalated {
        assert forall|i: int| 0 <= i < 15 implies (positions_where(15, pred).contains(i as usize)
            <==> is_core_hidden_name(#[trigger] spec_name(i))) by {
            assert(pred(i) == is_core_hidden_name(spec_name(i)));
        }
    }
}

} // verus!
