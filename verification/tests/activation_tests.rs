use neat_ai_discovery::analysis::activation::{
    activation_name_to_gpu_id, can_use_hard_tanh, compatibility_tenths, get_target_simulation_fn,
    get_target_simulation_mode, is_saturating_target, is_threshold_activation, scan_specs_for_role,
    HiddenScanContext, NeuronRole, SampleTargetData, TargetSimulationMode, TargetTopology,
    TaskDescriptor, ACTIVATION_SPEC_COUNT, ACTIVATION_SPEC_NAMES, BOUNDED_OUTPUT_SCAN_NAMES,
    CORE_HIDDEN_SCAN_NAMES,
};
use neat_ai_discovery::activations::ScalarSquash;

fn check_gpu_ids() {
    assert_eq!(activation_name_to_gpu_id("GELU"), 0);
    assert_eq!(activation_name_to_gpu_id("ELU"), 1);
    assert_eq!(activation_name_to_gpu_id("IDENTITY"), 6);
    assert_eq!(activation_name_to_gpu_id("LeakyReLU"), 11);
    assert_eq!(activation_name_to_gpu_id("Mish"), 12);
    assert_eq!(activation_name_to_gpu_id("ReLU6"), 18);
    // Unknown defaults to IDENTITY
    assert_eq!(activation_name_to_gpu_id("UNKNOWN"), 6);
}

fn check_threshold() {
    assert!(is_threshold_activation("STEP"));
    assert!(is_threshold_activation("step"));
    assert!(is_threshold_activation("BIPOLAR"));
    assert!(is_threshold_activation("bipolar"));
    assert!(!is_threshold_activation("TANH"));
    assert!(!is_threshold_activation("RELU"));
    assert!(!is_threshold_activation("IDENTITY"));
}

fn check_threshold_case_variations() {
    assert!(is_threshold_activation("STEP"));
    assert!(is_threshold_activation("Step"));
    assert!(is_threshold_activation("step"));
    assert!(is_threshold_activation("sTeP"));
    assert!(is_threshold_activation("BIPOLAR"));
    assert!(is_threshold_activation("Bipolar"));
    assert!(is_threshold_activation("bipolar"));
    assert!(is_threshold_activation("BiPoLaR"));

    assert!(!is_threshold_activation("TANH"));
    assert!(!is_threshold_activation("tanh"));
    assert!(!is_threshold_activation("Tanh"));
    assert!(!is_threshold_activation("RELU"));
    assert!(!is_threshold_activation("relu"));
    assert!(!is_threshold_activation("ReLU"));
    assert!(!is_threshold_activation("IDENTITY"));
    assert!(!is_threshold_activation("identity"));

    assert!(!is_threshold_activation(""));
    assert!(!is_threshold_activation("STEP2"));
    assert!(!is_threshold_activation("STEPBIPOLAR"));
}

#[test]
fn activation_test_activation_name_to_gpu_id() {
    check_gpu_ids();
}

#[test]
fn mod_test_activation_name_to_gpu_id() {
    check_gpu_ids();
}

#[test]
fn activation_test_is_threshold_activation() {
    check_threshold();
}

#[test]
fn mod_test_is_threshold_activation() {
    check_threshold();
}

#[test]
fn activation_test_is_threshold_activation_case_variations() {
    check_threshold_case_variations();
}

#[test]
fn mod_test_is_threshold_activation_case_variations() {
    check_threshold_case_variations();
}

#[test]
fn activation_test_activation_specs_count() {
    assert_eq!(ACTIVATION_SPEC_NAMES.len(), 15);
    assert_eq!(ACTIVATION_SPEC_COUNT, 15);
}

#[test]
fn mod_test_activation_specs_count() {
    assert_eq!(ACTIVATION_SPEC_NAMES.len(), 15);
    assert_eq!(ACTIVATION_SPEC_COUNT, 15);
}

// ---------------------------------------------------------------------------
// Target simulation
// ---------------------------------------------------------------------------

fn complete() -> SampleTargetData {
    SampleTargetData { has_target_value: true, has_target_activation: true }
}

fn activation_only() -> SampleTargetData {
    SampleTargetData { has_target_value: false, has_target_activation: true }
}

#[test]
fn mod_test_get_target_simulation_fn_with_complete_samples() {
    let samples = vec![complete(), complete()];
    assert_eq!(get_target_simulation_fn(&samples, Some("TANH")), Some(ScalarSquash::Tanh));
}

#[test]
fn mod_test_get_target_simulation_fn_with_incomplete_samples() {
    let samples = vec![complete(), activation_only()];
    assert!(get_target_simulation_fn(&samples, Some("TANH")).is_none());
}

#[test]
fn mod_test_get_target_simulation_mode_none_squash() {
    let samples = vec![complete()];
    let mode = get_target_simulation_mode(&samples, None);
    assert!(matches!(mode, TargetSimulationMode::Linear));
}

#[test]
fn mod_test_get_target_simulation_mode_full() {
    let samples = vec![complete(), complete()];
    let mode = get_target_simulation_mode(&samples, Some("HARD_TANH"));
    assert!(matches!(mode, TargetSimulationMode::Full(_)));
    assert_eq!(mode, TargetSimulationMode::Full(ScalarSquash::HardTanh));
}

#[test]
fn mod_test_get_target_simulation_mode_approximate() {
    let samples = vec![activation_only(), activation_only()];
    let mode = get_target_simulation_mode(&samples, Some("HARD_TANH"));
    assert!(matches!(mode, TargetSimulationMode::ApproximateValueFromActivation(_)));
    let mode = get_target_simulation_mode(&samples, Some("CLIPPED"));
    assert!(matches!(mode, TargetSimulationMode::ApproximateValueFromActivation(_)));
    let mode = get_target_simulation_mode(&samples, Some("TANH"));
    assert!(matches!(mode, TargetSimulationMode::ApproximateValueFromActivation(_)));
}

#[test]
fn approximate_mode_needs_an_inverse() {
    let samples = vec![activation_only()];
    // Only HARD_TANH, CLIPPED and TANH are approximated from the activation.
    assert_eq!(get_target_simulation_mode(&samples, Some("ABSOLUTE")), TargetSimulationMode::Linear);
    assert_eq!(get_target_simulation_mode(&samples, Some("LOGISTIC")), TargetSimulationMode::Linear);
    assert_eq!(get_target_simulation_mode(&samples, Some("SOFTSIGN")), TargetSimulationMode::Linear);
    assert_eq!(
        get_target_simulation_mode(&samples, Some("tanh")),
        TargetSimulationMode::ApproximateValueFromActivation(ScalarSquash::Tanh)
    );
    // Without any target activation the linear model applies as well.
    let bare = vec![SampleTargetData { has_target_value: true, has_target_activation: false }];
    assert_eq!(get_target_simulation_mode(&bare, Some("TANH")), TargetSimulationMode::Linear);
    // Aggregate squashes are never simulated.
    assert_eq!(get_target_simulation_mode(&[complete()], Some("MAXIMUM")), TargetSimulationMode::Linear);
}

#[test]
fn mod_test_can_use_hard_tanh() {
    let complete_samples = vec![complete(), complete()];
    let incomplete_samples = vec![activation_only()];
    assert!(can_use_hard_tanh(&complete_samples, Some("HARD_TANH")));
    assert!(can_use_hard_tanh(&complete_samples, Some("hard_tanh")));
    assert!(can_use_hard_tanh(&complete_samples, Some("CLIPPED")));
    assert!(!can_use_hard_tanh(&complete_samples, Some("TANH")));
    assert!(!can_use_hard_tanh(&complete_samples, None));
    assert!(!can_use_hard_tanh(&incomplete_samples, Some("HARD_TANH")));
}

#[test]
fn saturating_targets_are_bounded_and_complete() {
    let samples = vec![complete()];
    assert!(is_saturating_target(&samples, Some("tanh")));
    assert!(is_saturating_target(&samples, Some("RELU6")));
    assert!(!is_saturating_target(&samples, Some("IDENTITY")));
    assert!(!is_saturating_target(&samples, Some("BENT_IDENTITY")));
    assert!(!is_saturating_target(&[activation_only()], Some("TANH")));
    assert!(!is_saturating_target(&samples, None));
}

// ---------------------------------------------------------------------------
// Compatibility scores (tenths; 10 is fully compatible)
// ---------------------------------------------------------------------------

fn score(candidate: &str, target: &str) -> f32 {
    compatibility_tenths(candidate, target) as f32 / 10.0
}

#[test]
fn identity_to_hard_tanh_is_fully_compatible() {
    assert!((score("IDENTITY", "HARD_TANH") - 1.0).abs() < f32::EPSILON);
}

#[test]
fn absolute_to_hard_tanh_is_penalised() {
    assert!(score("ABSOLUTE", "HARD_TANH") <= 0.5);
}

#[test]
fn softplus_to_hard_tanh_is_penalised() {
    assert!(score("Softplus", "HARD_TANH") <= 0.5);
}

#[test]
fn tanh_to_identity_is_fully_compatible() {
    assert!((score("TANH", "IDENTITY") - 1.0).abs() < f32::EPSILON);
}

#[test]
fn gelu_to_hard_tanh_is_penalised() {
    assert!(score("GELU", "HARD_TANH") <= 0.6);
}

#[test]
fn elu_to_hard_tanh_is_penalised() {
    assert!(score("ELU", "HARD_TANH") <= 0.6);
}

#[test]
fn tanh_to_hard_tanh_is_moderately_compatible() {
    assert!((score("TANH", "HARD_TANH") - 0.8).abs() < f32::EPSILON);
    assert_eq!(compatibility_tenths("TANH", "HARD_TANH"), 8);
}

#[test]
fn relu6_to_hard_tanh_is_penalised() {
    assert!(score("ReLU6", "HARD_TANH") <= 0.5);
    assert_eq!(compatibility_tenths("ReLU6", "HARD_TANH"), 3);
}

#[test]
fn logistic_to_hard_tanh_is_penalised() {
    assert!(score("LOGISTIC", "HARD_TANH") <= 0.5);
}

#[test]
fn identity_to_identity_is_fully_compatible() {
    assert!((score("IDENTITY", "IDENTITY") - 1.0).abs() < f32::EPSILON);
}

#[test]
fn mish_to_tanh_is_penalised() {
    assert!(score("Mish", "TANH") <= 0.6);
    assert_eq!(compatibility_tenths("Mish", "TANH"), 5);
}

#[test]
fn any_candidate_to_unbounded_target_is_fully_compatible() {
    for candidate in &["IDENTITY", "TANH", "ABSOLUTE", "Softplus", "GELU", "ELU", "Mish", "BIPOLAR"] {
        assert!((score(candidate, "IDENTITY") - 1.0).abs() < f32::EPSILON);
    }
}

#[test]
fn all_spec_combinations_produce_valid_scores() {
    let targets = ["HARD_TANH", "TANH", "LOGISTIC", "CLIPPED", "IDENTITY", "GELU", "ELU"];
    for name in ACTIVATION_SPEC_NAMES.iter() {
        for target in targets.iter() {
            let s = score(name, target);
            assert!(s > 0.0 && s <= 1.0, "Score for {name} -> {target} must be in (0, 1], got {s}");
        }
    }
}

#[test]
fn unknown_candidate_defaults_to_flexible() {
    assert!((score("UNKNOWN_ACTIVATION", "HARD_TANH") - 1.0).abs() < f32::EPSILON);
}

#[test]
fn asymmetric_and_discrete_scores_into_logistic() {
    assert_eq!(compatibility_tenths("GELU", "LOGISTIC"), 7);
    assert_eq!(compatibility_tenths("BIPOLAR", "LOGISTIC"), 5);
    assert_eq!(compatibility_tenths("BIPOLAR", "HARD_TANH"), 7);
    assert_eq!(compatibility_tenths("TANH", "LOGISTIC"), 6);
    assert_eq!(compatibility_tenths("ABSOLUTE", "LOGISTIC"), 6);
}

// ---------------------------------------------------------------------------
// Scan sets
// ---------------------------------------------------------------------------

fn names(positions: &[usize]) -> Vec<&'static str> {
    positions.iter().map(|&i| ACTIVATION_SPEC_NAMES[i]).collect()
}

fn descriptor(target_topology: TargetTopology) -> TaskDescriptor {
    TaskDescriptor { target_topology }
}

#[test]
fn onehot_output_returns_only_bounded_subset() {
    // CATEGORICAL_ERROR has a one-hot target topology.
    let d = descriptor(TargetTopology::OneHot);
    let names = names(&scan_specs_for_role(NeuronRole::Output, &d));
    assert!(names.contains(&"LOGISTIC"));
    assert!(names.contains(&"BIPOLAR"));
    for unbounded in ["GELU", "ELU", "IDENTITY", "Mish", "Softplus"] {
        assert!(!names.contains(&unbounded));
    }
}

#[test]
fn simplex_output_returns_only_bounded_subset() {
    // CROSS_ENTROPY has a probability-simplex target topology.
    let d = descriptor(TargetTopology::Simplex);
    let names = names(&scan_specs_for_role(NeuronRole::Output, &d));
    assert!(names.contains(&"LOGISTIC"));
    assert!(names.contains(&"BIPOLAR"));
    for unbounded in ["GELU", "ELU", "IDENTITY"] {
        assert!(!names.contains(&unbounded));
    }
}

#[test]
fn onehot_hidden_cold_start_uses_core_set() {
    let history: Vec<String> = Vec::new();
    let ctx = HiddenScanContext { successful_squashes: &history, escalated: false };
    let specs = ctx.scan_specs();
    let got = names(&specs);
    assert_eq!(got.len(), CORE_HIDDEN_SCAN_NAMES.len());
    for core in CORE_HIDDEN_SCAN_NAMES.iter() {
        assert!(got.contains(core), "core member {core} missing from {got:?}");
    }
    assert!(specs.len() < ACTIVATION_SPEC_NAMES.len());
}

#[test]
fn simplex_hidden_escalated_restores_full_scan_set() {
    let history: Vec<String> = Vec::new();
    let ctx = HiddenScanContext { successful_squashes: &history, escalated: true };
    assert_eq!(ctx.scan_specs().len(), ACTIVATION_SPEC_NAMES.len());
}

#[test]
fn hidden_history_widens_but_output_neutral_stays_full() {
    let history = vec!["BIPOLAR".to_string()];
    let ctx = HiddenScanContext { successful_squashes: &history, escalated: false };
    let got = names(&ctx.scan_specs());
    assert!(got.contains(&"BIPOLAR"));
    assert!(!got.contains(&"CLIPPED"));

    let d = TaskDescriptor::neutral();
    assert_eq!(scan_specs_for_role(NeuronRole::Output, &d).len(), ACTIVATION_SPEC_NAMES.len());
}

#[test]
fn other_cost_name_returns_full_scan_for_both_roles() {
    // OTHER has no known target topology.
    let d = descriptor(TargetTopology::Unknown);
    for role in [NeuronRole::Output, NeuronRole::Hidden] {
        assert_eq!(scan_specs_for_role(role, &d).len(), ACTIVATION_SPEC_NAMES.len());
    }
}

#[test]
fn unrecognised_cost_name_returns_full_scan() {
    let d = descriptor(TargetTopology::Unknown);
    assert_eq!(scan_specs_for_role(NeuronRole::Output, &d).len(), ACTIVATION_SPEC_NAMES.len());
}

#[test]
fn independent_output_uses_full_scan() {
    // MSE, MAE, MAPE, MSLE and BINARY_CROSS_ENTROPY are independent; HINGE is a margin.
    for topology in [TargetTopology::Independent, TargetTopology::Margin] {
        let d = descriptor(topology);
        assert_eq!(scan_specs_for_role(NeuronRole::Output, &d).len(), ACTIVATION_SPEC_NAMES.len());
    }
}

#[test]
fn bounded_subset_only_contains_known_spec_names() {
    let d = descriptor(TargetTopology::OneHot);
    let specs = scan_specs_for_role(NeuronRole::Output, &d);
    for &i in &specs {
        assert!(BOUNDED_OUTPUT_SCAN_NAMES.contains(&ACTIVATION_SPEC_NAMES[i]));
    }
    let names = names(&specs);
    assert!(names.contains(&"LOGISTIC"));
    assert!(names.contains(&"BIPOLAR"));
    assert_eq!(names, vec!["LOGISTIC", "BIPOLAR"]);
}

#[test]
fn adopted_names_match_ignoring_ascii_case() {
    let history = vec!["clipped".to_string()];
    let ctx = HiddenScanContext { successful_squashes: &history, escalated: false };
    let got = names(&ctx.scan_specs());
    assert!(got.contains(&"CLIPPED"));
    assert_eq!(got.len(), CORE_HIDDEN_SCAN_NAMES.len() + 1);
}

#[test]
fn activation_spec_names_denote_scalar_squashes() {
    for name in ACTIVATION_SPEC_NAMES.iter() {
        assert!(
            neat_ai_discovery::activations::scalar_squash(name).is_some(),
            "{name} should denote a scalar squash"
        );
    }
}
