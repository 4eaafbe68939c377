use vstd::prelude::*;
use crate::content::SameContent;

verus! {

/// Neuron's dissolve state at the time of reset.
#[derive(Debug, PartialEq)]
pub enum NeuronDissolveState {
    WhenDissolvedTimestampSeconds(u64),
    DissolveDelaySeconds(u64),
}

impl Clone for NeuronDissolveState {
    fn clone(&self) -> (cloned: Self)
        ensures
            cloned.same_content(self),
    {
        match self {
            NeuronDissolveState::WhenDissolvedTimestampSeconds(value) => NeuronDissolveState::WhenDissolvedTimestampSeconds(*value),
            NeuronDissolveState::DissolveDelaySeconds(value) => NeuronDissolveState::DissolveDelaySeconds(*value),
        }
    }
}

impl SameContent for NeuronDissolveState {
    open spec fn same_content(&self, other: &Self) -> bool {
        match (self, other) {
            (NeuronDissolveState::WhenDissolvedTimestampSeconds(a), NeuronDissolveState::WhenDissolvedTimestampSeconds(b)) => a.same_content(b),
            (NeuronDissolveState::DissolveDelaySeconds(a), NeuronDissolveState::DissolveDelaySeconds(b)) => a.same_content(b),
            _ => false,
        }
    }
}

} // verus!
