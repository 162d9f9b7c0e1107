use neat_ai_discovery::analysis::analysis_outcome::{
    AnalysisOutcome, AnalysisPassSummary, EnvironmentalDisableReason, PassOutcomeCounts,
};

#[test]
fn gpu_unavailable_is_environmentally_disabled() {
    let outcome = AnalysisOutcome::gpu_unavailable();
    assert!(outcome.is_environmentally_disabled());
    assert!(!outcome.is_genuinely_empty());
    assert!(!outcome.is_productive());
    assert_eq!(outcome.disable_reason(), Some(EnvironmentalDisableReason::GpuUnavailable));
}

#[test]
fn completed_zero_is_genuinely_empty_not_disabled() {
    let outcome = AnalysisOutcome::Completed { candidates: 0 };
    assert!(outcome.is_genuinely_empty());
    assert!(!outcome.is_environmentally_disabled());
    assert_eq!(outcome.disable_reason(), None);
}

#[test]
fn completed_with_candidates_is_productive() {
    let outcome = AnalysisOutcome::Completed { candidates: 3 };
    assert!(outcome.is_productive());
    assert!(!outcome.is_genuinely_empty());
    assert!(!outcome.is_environmentally_disabled());
}

#[test]
fn reason_strings_are_stable() {
    assert_eq!(EnvironmentalDisableReason::MemoryGated.as_str(), "memory_gated");
    assert_eq!(EnvironmentalDisableReason::MemoryPressure.as_str(), "memory_pressure");
    assert_eq!(EnvironmentalDisableReason::GpuUnavailable.as_str(), "gpu_unavailable");
}

#[test]
fn pass_counts_separate_disabled_from_empty() {
    let mut counts = PassOutcomeCounts::default();
    counts.record(&AnalysisOutcome::Completed { candidates: 2 });
    counts.record(&AnalysisOutcome::Completed { candidates: 0 });
    counts.record(&AnalysisOutcome::Completed { candidates: 0 });
    counts.record(&AnalysisOutcome::gpu_unavailable());
    counts.record(&AnalysisOutcome::EnvironmentallyDisabled {
        reason: EnvironmentalDisableReason::MemoryGated,
    });

    assert_eq!(counts.productive, 1);
    assert_eq!(counts.genuinely_empty, 2);
    assert_eq!(counts.environmentally_disabled, 2);
    assert_eq!(counts.total(), 5);
}

#[test]
fn classification_of_results_checks_memory_budget_first() {
    let both = AnalysisPassSummary {
        memory_budget_exceeded: true,
        memory_pressure_cancelled: true,
        synapse_candidates_returned: Some(4),
        neuron_candidates_returned: None,
    };
    assert_eq!(
        AnalysisOutcome::from_result(&both).disable_reason(),
        Some(EnvironmentalDisableReason::MemoryGated)
    );
    let pressure = AnalysisPassSummary { memory_budget_exceeded: false, ..both };
    assert_eq!(
        AnalysisOutcome::from_result(&pressure).disable_reason(),
        Some(EnvironmentalDisableReason::MemoryPressure)
    );
    let done = AnalysisPassSummary {
        memory_budget_exceeded: false,
        memory_pressure_cancelled: false,
        synapse_candidates_returned: Some(4),
        neuron_candidates_returned: Some(3),
    };
    assert_eq!(AnalysisOutcome::from_result(&done), AnalysisOutcome::Completed { candidates: 7 });
    let nothing_ran = AnalysisPassSummary {
        synapse_candidates_returned: None,
        neuron_candidates_returned: None,
        ..done
    };
    assert!(AnalysisOutcome::from_result(&nothing_ran).is_genuinely_empty());
    let huge = AnalysisPassSummary {
        synapse_candidates_returned: Some(usize::MAX),
        neuron_candidates_returned: Some(1),
        ..done
    };
    assert_eq!(
        AnalysisOutcome::from_result(&huge),
        AnalysisOutcome::Completed { candidates: usize::MAX }
    );
}

#[test]
fn counts_start_at_zero() {
    let counts = PassOutcomeCounts::default();
    assert_eq!(counts.total(), 0);
    assert_eq!(counts.productive, 0);
}
