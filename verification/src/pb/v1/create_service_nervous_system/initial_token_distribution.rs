use vstd::prelude::*;
use crate::content::SameContent;

/// Nested message and enum types in `DeveloperDistribution`.
pub mod developer_distribution;

verus! {

#[derive(Debug, PartialEq, Default)]
pub struct DeveloperDistribution {
    pub developer_neurons: Vec<developer_distribution::NeuronDistribution>,
}

impl Clone for DeveloperDistribution {
    fn clone(&self) -> (cloned: Self)
        ensures
            cloned.same_content(self),
    {
        DeveloperDistribution {
            developer_neurons: self.developer_neurons.clone(),
        }
    }
}

impl SameContent for DeveloperDistribution {
    open spec fn same_content(&self, other: &Self) -> bool {
        &&& self.developer_neurons.same_content(&other.developer_neurons)
    }
}

#[derive(Debug, PartialEq, Default)]
pub struct TreasuryDistribution {
    pub total: Option<crate::nervous_system::Tokens>,
}

impl Clone for TreasuryDistribution {
    fn clone(&self) -> (cloned: Self)
        ensures
            cloned.same_content(self),
    {
        TreasuryDistribution {
            total: self.total.clone(),
        }
    }
}

impl SameContent for TreasuryDistribution {
    open spec fn same_content(&self, other: &Self) -> bool {
        &&& self.total.same_content(&other.total)
    }
}

#[derive(Debug, PartialEq, Default)]
pub struct SwapDistribution {
    pub total: Option<crate::nervous_system::Tokens>,
}

impl Clone for SwapDistribution {
    fn clone(&self) -> (cloned: Self)
        ensures
            cloned.same_content(self),
    {
        SwapDistribution {
            total: self.total.clone(),
        }
    }
}

impl SameContent for SwapDistribution {
    open spec fn same_content(&self, other: &Self) -> bool {
        &&& self.total.same_content(&other.total)
    }
}

} // verus!
