use neat_ai_discovery::analysis::batch::merge_batch_results;
use neat_ai_discovery::analysis::candidates::{
    activation_name_to_gpu_id as candidate_gpu_id, candidate_name, CANDIDATE_COUNT,
    CANDIDATE_NAMES,
};
use neat_ai_discovery::analysis::deadline::{
    plan_deadline, DeadlinePlan, DurationCheck, DEFAULT_DURATION_MS, MAX_DURATION_MS,
    MIN_DURATION_MS,
};
use neat_ai_discovery::analysis::diagnostics::{
    BestRejection, NeuronDiagnostics, NeuronNoCandidateReason, RejectionReason, SynapseNoCandidateReason,
    TargetDiagnostics,
};
use neat_ai_discovery::analysis::focus::{require_unique_focus, FocusError};
use neat_ai_discovery::analysis::targets::{
    build_ordered_neurons, focus_role_of, input_uuid_string, neuron_eligible_sources,
    neuron_focus_order, neuron_source_order, neuron_type, order_index, plan_synapse_target,
    split_connected_sources, split_neuron_focus, split_synapse_focus, synapse_focus_order,
    synapse_source_order, FocusRole, NeuronInfo, SynapseEnds, SynapseTargetPlan,
    SynapseTargetSkip, UnknownTarget,
};
use neat_ai_discovery::analysis::threshold::{
    is_threshold_activation, threshold_of_upper_name, ThresholdType,
};

fn neuron(uuid: &str, neuron_type: &str, squash: &str) -> NeuronInfo {
    NeuronInfo {
        uuid: uuid.to_string(),
        neuron_type: neuron_type.to_string(),
        squash: squash.to_string(),
    }
}

fn strings(items: &[&str]) -> Vec<String> {
    items.iter().map(|s| s.to_string()).collect()
}

fn ends(from: &str, to: &str) -> SynapseEnds {
    SynapseEnds { from_uuid: from.to_string(), to_uuid: to.to_string() }
}

fn sorted(mut v: Vec<usize>) -> Vec<usize> {
    v.sort();
    v
}

// ---------------------------------------------------------------------------
// Focus lists
// ---------------------------------------------------------------------------

#[test]
fn analyze_neurons_rejects_duplicate_focus_targets() {
    let focus = strings(&["output-0", "output-0"]);
    let err = require_unique_focus(&focus, "analyse_neurons").err().expect("duplicates are refused");
    let message = err.message();
    assert!(message.contains("duplicate focus neurons"), "Expected duplicate focus error, got: {message}");
    assert!(message.starts_with("analyse_neurons received duplicate focus neurons (output-0)."));
}

#[test]
fn analyze_synapses_rejects_duplicate_focus_targets() {
    let focus = strings(&["output-1", "output-0", "output-1", "output-0", "output-1"]);
    match require_unique_focus(&focus, "analyse_synapses") {
        Err(FocusError::Duplicates { context, names }) => {
            assert_eq!(context, "analyse_synapses");
            assert_eq!(names, strings(&["output-0", "output-1"]));
        }
        other => panic!("expected duplicates, got {other:?}"),
    }
    let err = require_unique_focus(&focus, "analyse_synapses").err().unwrap();
    assert!(err.message().contains("duplicate focus neurons (output-0, output-1)"));
}

#[test]
fn analyze_synapses_requires_focus_targets() {
    let focus: Vec<String> = Vec::new();
    let err = require_unique_focus(&focus, "analyse_synapses").err().expect("empty focus is refused");
    assert!(matches!(err, FocusError::Empty { .. }));
    let message = err.message();
    assert!(message.contains("at least one focus neuron"), "Expected missing focus error, got: {message}");
    assert!(message.starts_with("analyse_synapses needs at least one focus neuron."));
}

#[test]
fn unique_focus_is_kept_in_order() {
    let focus = strings(&["b", "a", "c"]);
    let unique = require_unique_focus(&focus, "ctx").expect("distinct focus is accepted");
    let names: Vec<&str> = unique.iter().map(|s| s.as_str()).collect();
    assert_eq!(names, vec!["b", "a", "c"]);
}

// ---------------------------------------------------------------------------
// Evaluation order and neuron types
// ---------------------------------------------------------------------------

fn creature() -> Vec<NeuronInfo> {
    vec![
        neuron("hidden-a", "hidden", "TANH"),
        neuron("const-b", "constant", "IDENTITY"),
        neuron("hidden-c", "hidden", "step"),
        neuron("output-0", "output", "IDENTITY"),
        neuron("output-1", "output", "Bipolar"),
    ]
}

#[test]
fn ordered_neurons_put_inputs_first() {
    let ordered = build_ordered_neurons(2, &creature());
    let uuids: Vec<&str> = ordered.iter().map(|o| o.uuid.as_str()).collect();
    assert_eq!(uuids, vec!["input-0", "input-1", "hidden-a", "const-b", "hidden-c", "output-0", "output-1"]);
    for (i, o) in ordered.iter().enumerate() {
        assert_eq!(o.index, i);
    }
    assert_eq!(input_uuid_string(12), "input-12");
    assert_eq!(order_index(&ordered, "output-0"), Some(5));
    assert_eq!(order_index(&ordered, "missing"), None);
}

#[test]
fn neuron_types_come_from_the_creature_then_the_inputs() {
    let neurons = creature();
    assert_eq!(neuron_type(2, &neurons, "input-1"), Some("input".to_string()));
    assert_eq!(neuron_type(2, &neurons, "input-2"), None);
    assert_eq!(neuron_type(2, &neurons, "const-b"), Some("constant".to_string()));
    assert_eq!(neuron_type(2, &neurons, "nobody"), None);
    assert_eq!(focus_role_of(2, &neurons, "output-1"), FocusRole::Output);
    assert_eq!(focus_role_of(2, &neurons, "input-0"), FocusRole::Input);
    assert_eq!(focus_role_of(2, &neurons, "hidden-a"), FocusRole::Other);
    assert_eq!(focus_role_of(2, &neurons, "nobody"), FocusRole::Other);
}

#[test]
fn neuron_focus_keeps_only_output_targets() {
    let neurons = creature();
    let focus = strings(&["input-1", "output-0", "hidden-a", "output-1", "nobody"]);
    let split = split_neuron_focus(2, &neurons, &focus);
    assert_eq!(split.targets, vec![1, 3]);
    assert_eq!(split.skipped_input, vec![0]);
    assert_eq!(split.skipped_hidden, vec![2, 4]);
    assert_eq!(split.threshold_targets, vec![3]);

    let ordered = neuron_focus_order(2, &neurons, &focus);
    assert_eq!(sorted(ordered.targets), vec![1, 3]);
    assert_eq!(ordered.skipped_input, vec![0]);
    assert_eq!(ordered.skipped_hidden, vec![2, 4]);
}

#[test]
fn synapse_focus_skips_threshold_targets() {
    let neurons = creature();
    let focus = strings(&["hidden-a", "hidden-c", "output-0", "output-1", "input-0"]);
    let split = split_synapse_focus(&neurons, &focus);
    assert_eq!(split.kept, vec![0, 2, 4]);
    assert_eq!(split.skipped, vec![1, 3]);
    let ordered = synapse_focus_order(&neurons, &focus);
    assert_eq!(sorted(ordered.kept), vec![0, 2, 4]);
    assert_eq!(ordered.skipped, vec![1, 3]);
}

#[test]
fn neuron_sources_are_all_earlier_neurons() {
    let ordered = build_ordered_neurons(2, &creature());
    assert_eq!(neuron_eligible_sources(&ordered, 5), vec![0, 1, 2, 3, 4]);
    assert_eq!(neuron_eligible_sources(&ordered, 0), Vec::<usize>::new());
    assert_eq!(sorted(neuron_source_order(&ordered, 3)), vec![0, 1, 2]);
}

/// Runs the per-target decisions of synapse analysis for every focus target,
/// recording them as the pass does; each remaining source counts as one
/// evaluated candidate without samples.
fn synapse_pass(input: usize, neurons: &[NeuronInfo], existing: &[SynapseEnds], focus: &[String]) -> TargetDiagnostics {
    let ordered = build_ordered_neurons(input, neurons);
    let mut diagnostics = TargetDiagnostics::new(focus);
    for target in focus {
        diagnostics.set_target_record_count(target, 100);
        if let Ok(SynapseTargetPlan::Sources(plan)) = plan_synapse_target(input, neurons, &ordered, target) {
            diagnostics.set_total_eligible_sources(target, plan.eligible.len() as u32);
            diagnostics.set_input_neuron_count(target, plan.input_neuron_count as u32);
            let (connected, rest) = synapse_source_order(existing, &ordered, target, &plan.eligible);
            for _ in 0..connected {
                diagnostics.record_already_connected(target);
            }
            for _ in rest {
                diagnostics.record_candidate_attempt(target, false);
            }
        }
    }
    diagnostics
}

#[test]
fn analyze_synapses_reports_eligible_sources_correctly_for_non_input_neurons() {
    let neurons = vec![
        neuron("hidden-0", "hidden", "IDENTITY"),
        neuron("constant-0", "constant", "IDENTITY"),
        neuron("output-0", "output", "IDENTITY"),
    ];
    let existing = vec![ends("input-0", "hidden-0"), ends("hidden-0", "output-0")];
    let focus = strings(&["hidden-0", "output-0"]);
    let ordered = build_ordered_neurons(2, &neurons);
    match plan_synapse_target(2, &neurons, &ordered, "hidden-0") {
        Ok(SynapseTargetPlan::Sources(p)) => {
            assert_eq!(p.target_index, 2);
            assert_eq!(p.eligible, vec![0, 1]);
            assert_eq!(p.input_neuron_count, 2);
        }
        other => panic!("expected sources, got {other:?}"),
    }
    match plan_synapse_target(2, &neurons, &ordered, "output-0") {
        Ok(SynapseTargetPlan::Sources(p)) => {
            // The constant is never a source.
            assert_eq!(p.eligible, vec![0, 1, 2]);
            assert_eq!(p.input_neuron_count, 2);
        }
        other => panic!("expected sources, got {other:?}"),
    }
    let diagnostics = synapse_pass(2, &neurons, &existing, &focus);
    for summary in diagnostics.no_candidate_summaries() {
        assert_ne!(summary.reason, SynapseNoCandidateReason::NoEligibleSources);
        assert!(summary.evaluated_candidates > 0);
    }
    assert_eq!(diagnostics.entry_for("hidden-0").unwrap().evaluated_candidates, 1);
    assert_eq!(diagnostics.entry_for("output-0").unwrap().evaluated_candidates, 2);
}

#[test]
fn analyze_synapses_reports_fully_connected_neuron_explicitly() {
    let neurons = vec![neuron("hidden-0", "hidden", "IDENTITY"), neuron("output-0", "output", "IDENTITY")];
    let existing = vec![ends("input-0", "hidden-0"), ends("input-1", "hidden-0")];
    let focus = strings(&["hidden-0"]);
    let diagnostics = synapse_pass(2, &neurons, &existing, &focus);
    let summaries = diagnostics.no_candidate_summaries();
    assert_eq!(summaries.len(), 1);
    assert_eq!(summaries[0].target_uuid, "hidden-0");
    assert_eq!(summaries[0].reason, SynapseNoCandidateReason::NoEligibleSources);
    assert_eq!(summaries[0].evaluated_candidates, 0);
    let entry = diagnostics.entry_for("hidden-0").unwrap();
    assert_eq!(entry.already_connected_count, 2);
    assert_eq!(entry.total_eligible_sources, 2);
}

#[test]
fn connected_sources_are_counted_and_the_rest_kept() {
    let neurons = creature();
    let ordered = build_ordered_neurons(2, &neurons);
    let eligible = vec![0, 1, 2, 4];
    let partial = vec![ends("hidden-a", "output-0"), ends("output-0", "hidden-a")];
    let (connected, rest) = split_connected_sources(&partial, &ordered, "output-0", &eligible);
    assert_eq!(connected, 1);
    assert_eq!(rest, vec![0, 1, 4]);
    let (connected, rest) = synapse_source_order(&partial, &ordered, "output-0", &eligible);
    assert_eq!(connected, 1);
    assert_eq!(sorted(rest), vec![0, 1, 4]);
}

#[test]
fn synapse_targets_that_are_skipped_or_invalid() {
    let neurons = creature();
    let ordered = build_ordered_neurons(2, &neurons);
    assert!(matches!(
        plan_synapse_target(2, &neurons, &ordered, "input-0"),
        Ok(SynapseTargetPlan::Skip(SynapseTargetSkip::InputOrConstant))
    ));
    assert!(matches!(
        plan_synapse_target(2, &neurons, &ordered, "const-b"),
        Ok(SynapseTargetPlan::Skip(SynapseTargetSkip::InputOrConstant))
    ));
    assert!(matches!(
        plan_synapse_target(2, &neurons, &ordered, "missing"),
        Ok(SynapseTargetPlan::Skip(SynapseTargetSkip::NotOrdered))
    ));
    // A hidden neuron with nothing before it has no eligible sources.
    let lone = vec![neuron("hidden-x", "hidden", "TANH")];
    let lone_order = build_ordered_neurons(0, &lone);
    assert!(matches!(
        plan_synapse_target(0, &lone, &lone_order, "hidden-x"),
        Ok(SynapseTargetPlan::Skip(SynapseTargetSkip::NoEligibleSources))
    ));
    // An ordered neuron of unknown type is an error.
    let inconsistent = build_ordered_neurons(1, &lone);
    assert!(matches!(plan_synapse_target(0, &lone, &inconsistent, "input-0"), Err(UnknownTarget)));
}

// ---------------------------------------------------------------------------
// Diagnostics
// ---------------------------------------------------------------------------

#[test]
fn diagnostics_marks_candidate_selection() {
    let mut diagnostics = TargetDiagnostics::new(&strings(&["output-0"]));
    diagnostics.mark_candidate_selected("output-0");
    let entry = diagnostics.entry_for("output-0").expect("diagnostics entry should exist");
    assert!(entry.had_candidate);
    assert!(diagnostics.no_candidate_summaries().is_empty());
}

fn rejection(
    reason: RejectionReason,
    source: &str,
    sample_count: usize,
    source_record_count: usize,
    improved_count: u32,
    worsened_count: u32,
) -> BestRejection {
    BestRejection {
        reason,
        source_uuid: source.to_string(),
        sample_count,
        source_record_count,
        improved_count,
        worsened_count,
    }
}

#[test]
fn target_diagnostics_reports_no_samples_reason() {
    let mut diagnostics = TargetDiagnostics::new(&strings(&["output-0"]));
    diagnostics.set_target_record_count("output-0", 25);
    diagnostics.record_candidate_attempt("output-0", false);
    // A source without samples: the rejection the pass records for it.
    diagnostics.set_best_rejection("output-0", rejection(RejectionReason::NoSamples, "input-0", 0, 8, 0, 0));

    let summaries = diagnostics.no_candidate_summaries();
    assert_eq!(summaries.len(), 1);
    let summary = &summaries[0];
    assert_eq!(summary.target_uuid, "output-0");
    assert!(matches!(summary.reason, SynapseNoCandidateReason::NoSamples));
    assert_eq!(summary.evaluated_candidates, 1);
    assert_eq!(summary.candidates_with_samples, 0);
    assert_eq!(summary.target_record_count, 25);
    let detail = summary.rejection.as_ref().expect("the best rejection is reported");
    assert_eq!(detail.source_uuid, "input-0");
    assert_eq!(detail.source_record_count, 8);
    assert_eq!(detail.sample_count, 0);
}

#[test]
fn target_diagnostics_reasons_in_order_of_precedence() {
    let mut d = TargetDiagnostics::new(&strings(&["a", "b", "c", "d", "a"]));
    assert_eq!(d.entries().len(), 4);
    // a: nothing recorded at all.
    // b: every eligible source already connected.
    d.set_total_eligible_sources("b", 3);
    d.record_already_connected("b");
    d.record_already_connected("b");
    d.record_already_connected("b");
    // c: evaluated, but no rejection recorded.
    d.set_total_eligible_sources("c", 2);
    d.record_candidate_attempt("c", true);
    // d: evaluated, best rejection below threshold.
    d.set_total_eligible_sources("d", 2);
    d.record_candidate_attempt("d", true);
    d.set_best_rejection("d", rejection(RejectionReason::BelowThreshold, "hidden-1", 42, 42, 30, 12));
    // Unknown targets change nothing.
    d.record_load_failure("zzz");
    d.set_input_neuron_count("b", 2);

    let reasons: Vec<(String, SynapseNoCandidateReason)> =
        d.no_candidate_summaries().into_iter().map(|s| (s.target_uuid, s.reason)).collect();
    assert_eq!(
        reasons,
        vec![
            ("a".to_string(), SynapseNoCandidateReason::NoEligibleSources),
            ("b".to_string(), SynapseNoCandidateReason::NoEligibleSources),
            ("c".to_string(), SynapseNoCandidateReason::NoDiagnostics),
            ("d".to_string(), SynapseNoCandidateReason::BelowThreshold),
        ]
    );
    assert_eq!(d.entry_for("b").unwrap().input_neuron_count, 2);
    let summaries = d.no_candidate_summaries();
    assert!(summaries[0].rejection.is_none() && summaries[1].rejection.is_none());
    assert!(summaries[2].rejection.is_none());
    let best = summaries[3].rejection.as_ref().unwrap();
    assert_eq!((best.source_uuid.as_str(), best.improved_count, best.worsened_count), ("hidden-1", 30, 12));
    assert!(d.entry_for("zzz").is_none());
    assert_eq!(RejectionReason::ZeroImprovement.description(), "no consistent improvement in GPU stats");
    assert_eq!(RejectionReason::NoSamples.description(), "no overlapping discovery samples");
    assert_eq!(RejectionReason::BelowThreshold.description(), "expected improvement below threshold");
}

#[test]
fn neuron_diagnostics_tracks_load_failures() {
    let mut diagnostics = NeuronDiagnostics::new(&strings(&["output-0"]));
    diagnostics.set_target_record_count("output-0", 100);
    diagnostics.set_total_eligible_sources("output-0", 10);
    for _ in 0..10 {
        diagnostics.record_load_failure("output-0");
    }
    let summaries = diagnostics.no_candidate_summaries();
    assert_eq!(summaries.len(), 1);
    let summary = &summaries[0];
    assert!(!matches!(summary.reason, NeuronNoCandidateReason::NoEligibleSources));
    assert!(matches!(summary.reason, NeuronNoCandidateReason::NoSamples));
    let entry = diagnostics.entry_for("output-0").unwrap();
    assert_eq!(entry.total_eligible_sources, 10);
    assert_eq!(entry.record_load_failures, 10);
    assert_eq!(entry.evaluated_sources, 0);
}

#[test]
fn neuron_diagnostics_reports_genuine_no_eligible_sources() {
    let mut diagnostics = NeuronDiagnostics::new(&strings(&["output-0"]));
    diagnostics.set_target_record_count("output-0", 100);
    diagnostics.set_total_eligible_sources("output-0", 0);
    let summaries = diagnostics.no_candidate_summaries();
    assert_eq!(summaries.len(), 1);
    assert!(matches!(summaries[0].reason, NeuronNoCandidateReason::NoEligibleSources));
    let entry = diagnostics.entry_for("output-0").unwrap();
    assert_eq!(entry.total_eligible_sources, 0);
    assert_eq!(entry.record_load_failures, 0);
    assert_eq!(entry.evaluated_sources, 0);
}

#[test]
fn neuron_diagnostics_reports_hidden_neuron_filtered_in_mixed_focus_list() {
    let mut diagnostics = NeuronDiagnostics::new(&strings(&["output-0", "hidden-1"]));
    diagnostics.mark_hidden_filtered("hidden-1");
    diagnostics.set_target_record_count("output-0", 100);
    diagnostics.set_total_eligible_sources("output-0", 5);
    diagnostics.record_candidate_attempt("output-0", false);

    let summaries = diagnostics.no_candidate_summaries();
    assert_eq!(summaries.len(), 2);
    let hidden_summary = summaries.iter().find(|s| s.target_uuid == "hidden-1").expect("summary for hidden-1");
    assert!(matches!(hidden_summary.reason, NeuronNoCandidateReason::HiddenNeuronFiltered));
    let output_summary = summaries.iter().find(|s| s.target_uuid == "output-0").unwrap();
    assert!(matches!(output_summary.reason, NeuronNoCandidateReason::NoDiagnostics));
}

#[test]
fn neuron_diagnostics_reports_input_neuron_filtered_not_hidden() {
    let mut diagnostics = NeuronDiagnostics::new(&strings(&["output-0", "input-1", "hidden-2"]));
    diagnostics.mark_input_filtered("input-1");
    diagnostics.mark_hidden_filtered("hidden-2");
    diagnostics.set_target_record_count("output-0", 100);
    diagnostics.set_total_eligible_sources("output-0", 5);
    diagnostics.record_candidate_attempt("output-0", false);

    let summaries = diagnostics.no_candidate_summaries();
    assert_eq!(summaries.len(), 3);
    let input_summary = summaries.iter().find(|s| s.target_uuid == "input-1").unwrap();
    assert!(matches!(input_summary.reason, NeuronNoCandidateReason::InputNeuronFiltered));
    let hidden_summary = summaries.iter().find(|s| s.target_uuid == "hidden-2").unwrap();
    assert!(matches!(hidden_summary.reason, NeuronNoCandidateReason::HiddenNeuronFiltered));
}

#[test]
fn neuron_diagnostics_keep_first_no_samples_source() {
    let mut d = NeuronDiagnostics::new(&strings(&["output-0", "output-1"]));
    d.set_target_record_count("output-0", 7);
    d.set_total_eligible_sources("output-0", 3);
    d.record_candidate_attempt("output-0", false);
    d.record_no_samples("output-0", "input-2");
    d.record_candidate_attempt("output-0", false);
    d.record_no_samples("output-0", "input-0");
    d.mark_candidate_selected("output-1");
    let summaries = d.no_candidate_summaries();
    assert_eq!(summaries.len(), 1);
    assert_eq!(summaries[0].reason, NeuronNoCandidateReason::NoSamples);
    assert_eq!(summaries[0].rejected_source.as_deref(), Some("input-2"));
    assert_eq!(summaries[0].evaluated_sources, 2);
    assert_eq!(summaries[0].target_record_count, 7);
}

// ---------------------------------------------------------------------------
// Deadlines
// ---------------------------------------------------------------------------

#[test]
fn build_deadline_handles_absolute_timestamps_and_relative_durations() {
    let now_ms: u64 = 1_800_000_000_000;
    let ten_minutes_ms: u64 = 10 * 60 * 1000;
    // Absolute timestamp ten minutes ahead.
    let plan = plan_deadline(Some(now_ms + ten_minutes_ms), Some(now_ms)).expect("future deadline");
    assert_eq!(plan.duration_ms, ten_minutes_ms);
    // Relative duration.
    let plan = plan_deadline(Some(ten_minutes_ms), Some(now_ms)).expect("relative deadline");
    assert_eq!(plan.duration_ms, ten_minutes_ms);
    // Absolute timestamp in the past.
    assert!(plan_deadline(Some(1_700_000_000_000), Some(now_ms)).is_none());
    // Missing clock with an absolute timestamp.
    assert!(plan_deadline(Some(now_ms + ten_minutes_ms), None).is_none());
    // Missing request: ten minutes.
    assert_eq!(
        plan_deadline(None, None),
        Some(DeadlinePlan { requested_ms: DEFAULT_DURATION_MS, check: DurationCheck::Accepted, duration_ms: 600_000 })
    );
}

#[test]
fn build_deadline_validates_duration_bounds() {
    let too_short = plan_deadline(Some(1_000), None).unwrap();
    assert_eq!(too_short.check, DurationCheck::TooShort);
    assert_eq!(too_short.requested_ms, 1_000);
    assert_eq!(too_short.duration_ms, DEFAULT_DURATION_MS);

    let too_long = plan_deadline(Some(4_000_000), None).unwrap();
    assert_eq!(too_long.check, DurationCheck::TooLong);
    assert_eq!(too_long.duration_ms, DEFAULT_DURATION_MS);

    assert_eq!(plan_deadline(Some(600_000), None).unwrap().duration_ms, 600_000);
    assert_eq!(plan_deadline(Some(MIN_DURATION_MS), None).unwrap().duration_ms, 3_000);
    assert_eq!(plan_deadline(Some(MAX_DURATION_MS), None).unwrap().duration_ms, 3_600_000);
    // An absolute deadline one second ahead is too short.
    let close = plan_deadline(Some(1_800_000_001_000), Some(1_800_000_000_000)).unwrap();
    assert_eq!(close.check, DurationCheck::TooShort);
    assert_eq!(close.duration_ms, DEFAULT_DURATION_MS);
}

// ---------------------------------------------------------------------------
// Batches, thresholds, candidate ids
// ---------------------------------------------------------------------------

#[test]
fn merge_batch_results_preserves_order_with_empty_samples() {
    let flags = vec![false, true, false, true];
    let merged = merge_batch_results(&flags, vec![1u32, 2u32]);
    assert_eq!(merged.len(), flags.len());
    assert_eq!(merged[0], Some(1));
    assert_eq!(merged[1], None);
    assert_eq!(merged[2], Some(2));
    assert_eq!(merged[3], None);
}

#[test]
fn merge_batch_results_runs_out_gracefully() {
    let flags = vec![false, false, false];
    let merged = merge_batch_results(&flags, vec!["x"]);
    assert_eq!(merged, vec![Some("x"), None, None]);
    let merged: Vec<Option<u8>> = merge_batch_results(&[], vec![9u8]);
    assert!(merged.is_empty());
}

#[test]
fn analysis_test_is_threshold_activation() {
    assert!(is_threshold_activation("STEP"));
    assert!(is_threshold_activation("step"));
    assert!(is_threshold_activation("Step"));
    assert!(is_threshold_activation("BIPOLAR"));
    assert!(is_threshold_activation("bipolar"));
    assert!(is_threshold_activation("Bipolar"));
    assert!(!is_threshold_activation("TANH"));
    assert!(!is_threshold_activation("RELU"));
    assert!(!is_threshold_activation("IDENTITY"));
    assert!(!is_threshold_activation(""));
    assert!(!is_threshold_activation("STEPS"));
}

#[test]
fn threshold_types_by_name() {
    assert_eq!(ThresholdType::from_squash("step"), Some(ThresholdType::Step));
    assert_eq!(ThresholdType::from_squash("BiPolar"), Some(ThresholdType::Bipolar));
    assert_eq!(ThresholdType::from_squash("TANH"), None);
    assert_eq!(threshold_of_upper_name("STEP"), Some(ThresholdType::Step));
    assert_eq!(threshold_of_upper_name("step"), None);
}

#[test]
fn candidate_gpu_ids_follow_table_order() {
    assert_eq!(CANDIDATE_COUNT, CANDIDATE_NAMES.len());
    for (i, name) in CANDIDATE_NAMES.iter().enumerate() {
        assert_eq!(candidate_gpu_id(name) as usize, i);
        assert_eq!(candidate_name(i), *name);
    }
    assert_eq!(candidate_gpu_id("SELU"), 2);
    assert_eq!(candidate_gpu_id("INVERSE"), 10);
    assert_eq!(candidate_gpu_id("Mish"), 6);
    assert_eq!(candidate_gpu_id("gelu"), 6);
}

// ---------------------------------------------------------------------------
// Sample pairing
// ---------------------------------------------------------------------------

use neat_ai_discovery::analysis::samples::{match_samples, SamplePair, SourceObservation, TargetObservation};

fn target_obs(obs_index: u32, usable: bool, average_finite: bool) -> TargetObservation {
    TargetObservation { obs_index, usable, average_finite }
}

fn source_obs(obs_index: u32, activation_finite: bool) -> SourceObservation {
    SourceObservation { obs_index, activation_finite }
}

#[test]
fn samples_pair_by_observation_index_last_usable_target_wins() {
    let targets = vec![
        target_obs(0, true, true),
        target_obs(1, true, true),
        target_obs(1, true, true),
        target_obs(2, false, false),
        target_obs(3, true, false),
        target_obs(4, true, true),
        target_obs(4, false, false),
    ];
    let sources = vec![
        source_obs(1, true),
        source_obs(0, false),
        source_obs(2, true),
        source_obs(3, true),
        source_obs(4, true),
        source_obs(0, true),
        source_obs(9, true),
    ];
    let pairs = match_samples(&targets, &sources);
    assert_eq!(
        pairs,
        vec![
            SamplePair { source: 0, target: 2 },
            SamplePair { source: 4, target: 5 },
            SamplePair { source: 5, target: 0 },
        ]
    );
    assert!(match_samples(&[], &sources).is_empty());
    assert!(match_samples(&targets, &[]).is_empty());
}

// ---------------------------------------------------------------------------
// Phases and the vertical timeout
// ---------------------------------------------------------------------------

use neat_ai_discovery::analysis::phases::{plan_phases, Phase, TimeoutLatch};

#[test]
fn analyze_all_runs_synapse_and_neuron_phases() {
    let plan = plan_phases(None, None);
    assert!(plan.neuron && plan.synapse);
    assert!(plan.loads_records());
    assert_eq!(plan.sequence(), vec![Phase::Neuron, Phase::Synapse]);

    let only_synapses = plan_phases(Some(true), Some(false));
    assert_eq!(only_synapses.sequence(), vec![Phase::Synapse]);

    let nothing = plan_phases(Some(false), Some(false));
    assert!(!nothing.loads_records());
    assert!(nothing.sequence().is_empty());
}

#[test]
fn analyze_neurons_uses_vertical_timeout_with_randomized_order() {
    let mut latch = TimeoutLatch::new();
    assert!(latch.allows_next_target(false));
    assert!(latch.allows_next_target(false));
    assert!(!latch.allows_next_target(true));
    assert!(latch.timed_out);
    // Once timed out, later targets never start, whatever the clock says.
    assert!(!latch.allows_next_target(false));
    assert!(latch.timed_out);
}

#[test]
fn every_focus_neuron_has_one_role() {
    let neurons = creature();
    let focus = strings(&["input-0", "output-0", "hidden-a", "const-b", "nobody", "output-1", "input-1"]);
    let split = split_neuron_focus(2, &neurons, &focus);
    assert_eq!(split.targets.len() + split.skipped_input.len() + split.skipped_hidden.len(), focus.len());
}

// ---------------------------------------------------------------------------
// GPU availability reports
// ---------------------------------------------------------------------------

use neat_ai_discovery::analysis::gpu_probe::{gpu_availability, no_gpu_result, GpuProbe, Platform};

#[test]
fn missing_gpu_is_an_error_only_on_macos() {
    let mac = gpu_availability(&GpuProbe::NoAdapter, Platform::MacOs);
    assert!(!mac.available);
    assert!(mac.is_error);
    assert_eq!(
        mac.reason.as_deref(),
        Some("No GPU adapter found. On macOS, GPU (Metal) should always be available. This may indicate a system configuration issue.")
    );
    let linux = gpu_availability(&GpuProbe::DeviceFailed("out of memory".to_string()), Platform::Linux);
    assert!(!linux.available);
    assert!(!linux.is_error);
    assert!(linux.reason.as_deref().unwrap().starts_with("GPU device creation failed: out of memory. Discovery disabled on this machine."));
    let other = no_gpu_result("wgpu instance creation failed (GPU backend unavailable)", Platform::Other);
    assert_eq!(
        other.reason.as_deref(),
        Some("wgpu instance creation failed (GPU backend unavailable). Discovery disabled on this platform.")
    );
    let ready = gpu_availability(&GpuProbe::Ready, Platform::MacOs);
    assert!(ready.available && !ready.is_error && ready.reason.is_none());
}
