//! Squash-name handling and the decision logic of neuron and synapse discovery.
use vstd::prelude::*;

pub mod activations;
pub mod analysis;
pub mod positions;
pub mod text;

verus! {

} // verus!
