use vstd::prelude::*;
use crate::content::SameContent;

verus! {

#[derive(Debug, PartialEq)]
pub enum Result {
    /// Specified in case of error.
    Error(super::GovernanceError),
    /// The ID of the neuron that was created or empty in the case of error.
    NeuronId(crate::ids::NeuronId),
}

impl Clone for Result {
    fn clone(&self) -> (cloned: Self)
        ensures
            cloned.same_content(self),
    {
        match self {
            Result::Error(value) => Result::Error(value.clone()),
            Result::NeuronId(value) => Result::NeuronId(value.clone()),
        }
    }
}

impl SameContent for Result {
    open spec fn same_content(&self, other: &Self) -> bool {
        match (self, other) {
            (Result::Error(a), Result::Error(b)) => a.same_content(b),
            (Result::NeuronId(a), Result::NeuronId(b)) => a.same_content(b),
            _ => false,
        }
    }
}

} // verus!
