use vstd::prelude::*;
use crate::content::SameContent;

/// Nested message and enum types in `ResetAging`.
pub mod reset_aging;

verus! {

#[derive(Debug, PartialEq, Default)]
pub struct ResetAging {
    /// The neuron id whose aging was reset.
    pub neuron_id: u64,
    /// The aging_since_timestamp_seconds before reset.
    pub previous_aging_since_timestamp_seconds: u64,
    /// The aging_since_timestamp_seconds after reset.
    pub new_aging_since_timestamp_seconds: u64,
    /// Neuron's stake at the time of reset.
    pub neuron_stake_e8s: u64,
    /// Neuron's dissolve state at the time of reset.
    pub neuron_dissolve_state: Option<reset_aging::NeuronDissolveState>,
}

impl Clone for ResetAging {
    fn clone(&self) -> (cloned: Self)
        ensures
            cloned.same_content(self),
    {
        ResetAging {
            neuron_id: self.neuron_id,
            previous_aging_since_timestamp_seconds: self.previous_aging_since_timestamp_seconds,
            new_aging_since_timestamp_seconds: self.new_aging_since_timestamp_seconds,
            neuron_stake_e8s: self.neuron_stake_e8s,
            neuron_dissolve_state: self.neuron_dissolve_state.clone(),
        }
    }
}

impl SameContent for ResetAging {
    open spec fn same_content(&self, other: &Self) -> bool {
        &&& self.neuron_id.same_content(&other.neuron_id)
        &&& self.previous_aging_since_timestamp_seconds.same_content(&other.previous_aging_since_timestamp_seconds)
        &&& self.new_aging_since_timestamp_seconds.same_content(&other.new_aging_since_timestamp_seconds)
        &&& self.neuron_stake_e8s.same_content(&other.neuron_stake_e8s)
        &&& self.neuron_dissolve_state.same_content(&other.neuron_dissolve_state)
    }
}

#[derive(Debug, PartialEq)]
pub enum Payload {
    /// Reset aging timestamps for <https://forum.dfinity.org/t/icp-neuron-age-is-52-years/21261/26>
    ResetAging(ResetAging),
}

impl Clone for Payload {
    fn clone(&self) -> (cloned: Self)
        ensures
            cloned.same_content(self),
    {
        match self {
            Payload::ResetAging(value) => Payload::ResetAging(value.clone()),
        }
    }
}

impl SameContent for Payload {
    open spec fn same_content(&self, other: &Self) -> bool {
        match (self, other) {
            (Payload::ResetAging(a), Payload::ResetAging(b)) => a.same_content(b),
        }
    }
}

} // verus!
