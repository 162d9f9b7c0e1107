//! Target simulation mode selection and activation predicates.
//!
//! The most accurate (saturation-aware) scoring re-applies the target's squash
//! to the target's recorded pre-activation value. That needs both the
//! pre-activation `target_value` and the `target_activation` of every sample;
//! which of them the samples carry decides the simulation mode.
use vstd::prelude::*;

use crate::activations::{
    lemma_normalised_literal, lemma_threshold_and_clamp_names, normalised, scalar_squash,
    scalar_squash_named, ScalarSquash,
};
use crate::text::{ascii_upper, eq_ignore_ascii_case, str_eq, str_eq_ignore_ascii_case, to_ascii_upper};

verus! {

/// Which target data one sample carries.
#[derive(Clone, Copy, Debug, PartialEq, Eq, Structural)]
pub struct SampleTargetData {
    /// The sample records the target's pre-activation value.
    pub has_target_value: bool,
    /// The sample records the target's post-squash activation.
    pub has_target_activation: bool,
}

/// Target simulation mode for saturation-aware candidate scoring.
#[derive(Clone, Copy, Debug, PartialEq, Eq, Structural)]
pub enum TargetSimulationMode {
    /// No saturation-aware simulation; fall back to the linear (value-domain) model.
    Linear,
    /// Full simulation of the given squash, from recorded value and activation.
    Full(ScalarSquash),
    /// Simulation of the given squash from the recorded activation, with the
    /// pre-activation value approximated from it.
    ApproximateValueFromActivation(ScalarSquash),
}

/// Every sample records both the target value and the target activation.
pub open spec fn all_complete(samples: Seq<SampleTargetData>) -> bool {
    forall|i: int|
        0 <= i < samples.len() ==> (#[trigger] samples[i]).has_target_value
            && samples[i].has_target_activation
}

/// Every sample records the target activation.
pub open spec fn all_have_activation(samples: Seq<SampleTargetData>) -> bool {
    forall|i: int| 0 <= i < samples.len() ==> (#[trigger] samples[i]).has_target_activation
}

/// Every sample records the target value.
pub open spec fn all_have_value(samples: Seq<SampleTargetData>) -> bool {
    forall|i: int| 0 <= i < samples.len() ==> (#[trigger] samples[i]).has_target_value
}

/// Whether a name is STEP or BIPOLAR, ignoring ASCII case.
pub open spec fn is_threshold_named(n: Seq<char>) -> bool {
    eq_ignore_ascii_case(n, "STEP"@) || eq_ignore_ascii_case(n, "BIPOLAR"@)
}

/// Whether a name is HARD_TANH or its alias CLIPPED, ignoring ASCII case.
pub open spec fn is_hard_tanh_named(n: Seq<char>) -> bool {
    eq_ignore_ascii_case(n, "HARD_TANH"@) || eq_ignore_ascii_case(n, "CLIPPED"@)
}

/// Whether a target squash is simulated from its activation when the target
/// values are missing: HARD_TANH, its alias CLIPPED, or TANH, ignoring ASCII case.
pub open spec fn is_approximated_named(n: Seq<char>) -> bool {
    is_hard_tanh_named(n) || eq_ignore_ascii_case(n, "TANH"@)
}

/// The squash to simulate when every sample is complete.
pub open spec fn spec_target_simulation_fn(
    samples: Seq<SampleTargetData>,
    target_squash: Option<&str>,
) -> Option<ScalarSquash> {
    match target_squash {
        None => None,
        Some(s) => match scalar_squash_named(normalised(s@)) {
            None => None,
            Some(k) => if all_complete(samples) {
                Some(k)
            } else {
                None
            },
        },
    }
}

/// The best available simulation mode for the given samples.
pub open spec fn spec_target_simulation_mode(
    samples: Seq<SampleTargetData>,
    target_squash: Option<&str>,
) -> TargetSimulationMode {
    match target_squash {
        None => TargetSimulationMode::Linear,
        Some(s) => match scalar_squash_named(normalised(s@)) {
            None => TargetSimulationMode::Linear,
            Some(k) => if !all_have_activation(samples) {
                TargetSimulationMode::Linear
            } else if all_have_value(samples) {
                TargetSimulationMode::Full(k)
            } else if is_approximated_named(s@) {
                TargetSimulationMode::ApproximateValueFromActivation(k)
            } else {
                TargetSimulationMode::Linear
            },
        },
    }
}

/// Check if a target neuron uses a threshold-based discrete activation
/// function: STEP (`value > 0 ? 1 : 0`) or BIPOLAR (`value > 0 ? 1 : -1`),
/// compared ignoring ASCII case.
pub fn is_threshold_activation(squash: &str) -> (r: bool)
    ensures
        r == is_threshold_named(squash@),
{
    str_eq_ignore_ascii_case(squash, "STEP") || str_eq_ignore_ascii_case(squash, "BIPOLAR")
}

fn all_samples_complete(samples: &[SampleTargetData]) -> (r: bool)
    ensures
        r == all_complete(samples@),
{
    let mut i: usize = 0;
    while i < samples.len()
        invariant
            i <= samples@.len(),
            forall|k: int|
                0 <= k < i ==> (#[trigger] samples@[k]).has_target_value
                    && samples@[k].has_target_activation,
        decreases samples@.len() - i,
    {
        if !(samples[i].has_target_value && samples[i].has_target_activation) {
            return false;
        }
        i = i + 1;
    }
    true
}

fn all_samples_have_activation(samples: &[SampleTargetData]) -> (r: bool)
    ensures
        r == all_have_activation(samples@),
{
    let mut i: usize = 0;
    while i < samples.len()
        invariant
            i <= samples@.len(),
            forall|k: int| 0 <= k < i ==> (#[trigger] samples@[k]).has_target_activation,
        decreases samples@.len() - i,
    {
        if !samples[i].has_target_activation {
            return false;
        }
        i = i + 1;
    }
    true
}

fn all_samples_have_value(samples: &[SampleTargetData]) -> (r: bool)
    ensures
        r == all_have_value(samples@),
{
    let mut i: usize = 0;
    while i < samples.len()
        invariant
            i <= samples@.len(),
            forall|k: int| 0 <= k < i ==> (#[trigger] samples@[k]).has_target_value,
        decreases samples@.len() - i,
    {
        if !samples[i].has_target_value {
            return false;
        }
        i = i + 1;
    }
    true
}

/// The squash to simulate when the target squash is simulable and every
/// sample carries target data; `None` means the linear model applies.
pub fn get_target_simulation_fn(
    samples: &[SampleTargetData],
    target_squash: Option<&str>,
) -> (r: Option<ScalarSquash>)
    ensures
        r == spec_target_simulation_fn(samples@, target_squash),
{
    let squash = match target_squash {
        Some(s) => s,
        None => return None,
    };
    let activation = match scalar_squash(squash) {
        Some(k) => k,
        None => return None,
    };
    if all_samples_complete(samples) {
        Some(activation)
    } else {
        None
    }
}

/// Select the best available target simulation mode for the given samples.
///
/// Full simulation needs every sample's value and activation. Without the
/// values, only `HARD_TANH` (alias `CLIPPED`) and `TANH` are simulated from
/// the activation, with the value reconstructed through their inverse; any
/// other squash falls back to the linear model.
pub fn get_target_simulation_mode(
    samples: &[SampleTargetData],
    target_squash: Option<&str>,
) -> (r: TargetSimulationMode)
    ensures
        r == spec_target_simulation_mode(samples@, target_squash),
{
    let squash = match target_squash {
        Some(s) => s,
        None => return TargetSimulationMode::Linear,
    };
    let activation = match scalar_squash(squash) {
        Some(k) => k,
        None => return TargetSimulationMode::Linear,
    };
    if !all_samples_have_activation(samples) {
        return TargetSimulationMode::Linear;
    }
    if all_samples_have_value(samples) {
        return TargetSimulationMode::Full(activation);
    }
    if str_eq_ignore_ascii_case(squash, "HARD_TANH") || str_eq_ignore_ascii_case(squash, "CLIPPED")
        || str_eq_ignore_ascii_case(squash, "TANH") {
        return TargetSimulationMode::ApproximateValueFromActivation(activation);
    }
    TargetSimulationMode::Linear
}

/// Whether the target is `HARD_TANH` (or its alias `CLIPPED`) and every sample
/// carries full target data.
pub fn can_use_hard_tanh(samples: &[SampleTargetData], target_squash: Option<&str>) -> (r: bool)
    ensures
        r == (match target_squash {
            Some(s) => is_hard_tanh_named(s@),
            None => false,
        } && all_complete(samples@)),
{
    let named = match target_squash {
        Some(s) => str_eq_ignore_ascii_case(s, "HARD_TANH") || str_eq_ignore_ascii_case(s, "CLIPPED"),
        None => false,
    };
    named && all_samples_complete(samples)
}

/// Whether an ASCII-upper-cased name is one of the bounded, saturating squashes.
pub open spec fn is_saturating_named(upper: Seq<char>) -> bool {
    ||| upper == "TANH"@
    ||| upper == "LOGISTIC"@
    ||| upper == "HARD_TANH"@
    ||| upper == "CLIPPED"@
    ||| upper == "BIPOLAR"@
    ||| upper == "BIPOLAR_SIGMOID"@
    ||| upper == "STEP"@
    ||| upper == "SOFTSIGN"@
    ||| upper == "ISRU"@
    ||| upper == "ARCTAN"@
    ||| upper == "RELU6"@
}

/// Whether the target squash is a **bounded** activation that can saturate, is
/// simulable, and every sample carries the target data simulation needs.
///
/// Weight-search heuristics for saturating targets apply only when this holds.
pub fn is_saturating_target(samples: &[SampleTargetData], target_squash: Option<&str>) -> (r: bool)
    ensures
        r == (match target_squash {
            Some(s) => is_saturating_named(ascii_upper(s@)) && scalar_squash_named(
                normalised(s@),
            ) is Some,
            None => false,
        } && all_complete(samples@)),
{
    let squash = match target_squash {
        Some(s) => s,
        None => return false,
    };
    let upper = to_ascii_upper(squash);
    let u = upper.as_str();
    let bounded = str_eq(u, "TANH") || str_eq(u, "LOGISTIC") || str_eq(u, "HARD_TANH") || str_eq(
        u,
        "CLIPPED",
    ) || str_eq(u, "BIPOLAR") || str_eq(u, "BIPOLAR_SIGMOID") || str_eq(u, "STEP") || str_eq(
        u,
        "SOFTSIGN",
    ) || str_eq(u, "ISRU") || str_eq(u, "ARCTAN") || str_eq(u, "RELU6");
    bounded && scalar_squash(squash).is_some() && all_samples_complete(samples)
}

/// Full simulation is selected exactly when the complete-data simulation
/// function exists, and it simulates the same squash.
pub proof fn lemma_full_mode_matches_simulation_fn(
    samples: Seq<SampleTargetData>,
    target_squash: Option<&str>,
)
    ensures
        forall|k: ScalarSquash|
            spec_target_simulation_mode(samples, target_squash) == TargetSimulationMode::Full(k)
                <==> #[trigger] spec_target_simulation_fn(samples, target_squash) == Some(k),
{
    if all_complete(samples) {
        assert(all_have_activation(samples) && all_have_value(samples)) by {
            assert forall|i: int| 0 <= i < samples.len() implies (#[trigger] samples[i]).has_target_activation && samples[i].has_target_value by {
                assert(samples[i].has_target_value);
            }
        }
    } else if all_have_activation(samples) && all_have_value(samples) {
        assert forall|i: int| 0 <= i < samples.len() implies (#[trigger] samples[i]).has_target_value
            && samples[i].has_target_activation by {
            assert(samples[i].has_target_activation);
        }
    }
}

/// A threshold target names the STEP or BIPOLAR squash, whatever its ASCII case.
pub proof fn lemma_threshold_names_step_or_bipolar(name: Seq<char>)
    requires
        is_threshold_named(name),
    ensures
        scalar_squash_named(normalised(name)) == Some(ScalarSquash::Step) || scalar_squash_named(
            normalised(name),
        ) == Some(ScalarSquash::Bipolar),
{
    reveal_strlit("STEP");
    reveal_strlit("BIPOLAR");
    lemma_threshold_and_clamp_names();
    if eq_ignore_ascii_case(name, "STEP"@) {
        lemma_normalised_literal(name, "STEP"@);
    } else {
        lemma_normalised_literal(name, "BIPOLAR"@);
    }
}

/// When the legacy HARD_TANH check passes, full simulation of HARD_TANH is selected.
pub proof fn lemma_hard_tanh_check_selects_full_hard_tanh(
    samples: Seq<SampleTargetData>,
    s: &str,
)
    requires
        is_hard_tanh_named(s@),
        all_complete(samples),
    ensures
        spec_target_simulation_mode(samples, Some(s)) == TargetSimulationMode::Full(
            ScalarSquash::HardTanh,
        ),
{
    reveal_strlit("HARD_TANH");
    reveal_strlit("CLIPPED");
    lemma_threshold_and_clamp_names();
    if eq_ignore_ascii_case(s@, "HARD_TANH"@) {
        lemma_normalised_literal(s@, "HARD_TANH"@);
    } else {
        lemma_normalised_literal(s@, "CLIPPED"@);
    }
    lemma_full_mode_matches_simulation_fn(samples, Some(s));
}

/// Approximate simulation is chosen only for HARD_TANH (or CLIPPED) and TANH,
/// which have approximate inverses, when every sample has the target
/// activation but some sample lacks the target value.
pub proof fn lemma_approximate_mode_needs_inverse(
    samples: Seq<SampleTargetData>,
    target_squash: Option<&str>,
    k: ScalarSquash,
)
    requires
        spec_target_simulation_mode(samples, target_squash)
            == TargetSimulationMode::ApproximateValueFromActivation(k),
    ensures
        k == ScalarSquash::HardTanh || k == ScalarSquash::Tanh,
        k.spec_has_inverse(),
        all_have_activation(samples),
        !all_have_value(samples),
        target_squash matches Some(s) && is_approximated_named(s@) && scalar_squash_named(
            normalised(s@),
        ) == Some(k),
{
    let s = target_squash.unwrap();
    reveal_strlit("HARD_TANH");
    reveal_strlit("CLIPPED");
    reveal_strlit("TANH");
    lemma_threshold_and_clamp_names();
    if eq_ignore_ascii_case(s@, "HARD_TANH"@) {
        lemma_normalised_literal(s@, "HARD_TANH"@);
    } else if eq_ignore_ascii_case(s@, "CLIPPED"@) {
        lemma_normalised_literal(s@, "CLIPPED"@);
    } else {
        lemma_normalised_literal(s@, "TANH"@);
    }
}

} // verus!
