use vstd::prelude::*;
use crate::content::SameContent;

/// Nested message and enum types in `NeuronInFlightCommand`.
pub mod neuron_in_flight_command;

verus! {

/// The possible commands that require interaction with the ledger.
#[derive(Debug, PartialEq, Default)]
pub struct NeuronInFlightCommand {
    /// The timestamp at which the command was issued, for debugging
    /// purposes.
    pub timestamp: u64,
    pub command: Option<neuron_in_flight_command::Command>,
}

impl Clone for NeuronInFlightCommand {
    fn clone(&self) -> (cloned: Self)
        ensures
            cloned.same_content(self),
    {
        NeuronInFlightCommand {
            timestamp: self.timestamp,
            command: self.command.clone(),
        }
    }
}

impl SameContent for NeuronInFlightCommand {
    open spec fn same_content(&self, other: &Self) -> bool {
        &&& self.timestamp.same_content(&other.timestamp)
        &&& self.command.same_content(&other.command)
    }
}

} // verus!
