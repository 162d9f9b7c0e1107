//! Decision logic of discovery analysis: which targets and sources a pass
//! looks at, how a pass is classified, and why a target produced no candidate.
pub mod activation;
pub mod analysis_outcome;
pub mod targets;
pub mod threshold;
pub mod focus;
pub mod deadline;
pub mod batch;
pub mod diagnostics;
pub mod candidates;
pub mod phases;
pub mod samples;
pub mod gpu_probe;
