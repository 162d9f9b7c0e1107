//! Activation classification used by candidate discovery: GPU shader ids,
//! scan-set selection, simulation-mode selection and compatibility scoring.
pub mod compatibility;
pub mod simulation;
pub mod specs;

pub use self::compatibility::{
    classify_candidate, classify_target, compatibility_tenths, CandidateClass, TargetClass,
};
pub use self::simulation::{
    can_use_hard_tanh, get_target_simulation_fn, get_target_simulation_mode,
    is_saturating_target, is_threshold_activation, SampleTargetData, TargetSimulationMode,
};
pub use self::specs::{
    activation_name_to_gpu_id, scan_specs_for_role, HiddenScanContext, NeuronRole,
    TargetTopology, TaskDescriptor, ACTIVATION_SPEC_COUNT, ACTIVATION_SPEC_NAMES,
    BOUNDED_OUTPUT_SCAN_NAMES, CORE_HIDDEN_SCAN_NAMES,
};
