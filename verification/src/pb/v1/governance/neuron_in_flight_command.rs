use vstd::prelude::*;
use crate::content::SameContent;

verus! {

/// A general place holder for sync commands. The neuron lock is
/// never left holding a sync command (as it either succeeds to
/// acquire the lock and releases it in the same call, or never
/// acquires it in the first place), but it still must be acquired
/// to prevent interleaving with another async command. Thus there's
/// no value in actually storing the command itself, and this placeholder
/// can generally be used in all sync cases.
#[derive(Debug, PartialEq, Default)]
pub struct SyncCommand {}

impl Clone for SyncCommand {
    fn clone(&self) -> (cloned: Self)
        ensures
            cloned.same_content(self),
    {
        SyncCommand {}
    }
}

impl SameContent for SyncCommand {
    open spec fn same_content(&self, other: &Self) -> bool {
        true
    }
}

#[derive(Debug, PartialEq)]
pub enum Command {
    Disburse(super::super::manage_neuron::Disburse),
    Split(super::super::manage_neuron::Split),
    DisburseToNeuron(super::super::manage_neuron::DisburseToNeuron),
    MergeMaturity(super::super::manage_neuron::MergeMaturity),
    ClaimOrRefreshNeuron(super::super::manage_neuron::ClaimOrRefresh),
    Configure(super::super::manage_neuron::Configure),
    Merge(super::super::manage_neuron::Merge),
    Spawn(crate::ids::NeuronId),
    SyncCommand(SyncCommand),
}

impl Clone for Command {
    fn clone(&self) -> (cloned: Self)
        ensures
            cloned.same_content(self),
    {
        match self {
            Command::Disburse(value) => Command::Disburse(value.clone()),
            Command::Split(value) => Command::Split(value.clone()),
            Command::DisburseToNeuron(value) => Command::DisburseToNeuron(value.clone()),
            Command::MergeMaturity(value) => Command::MergeMaturity(value.clone()),
            Command::ClaimOrRefreshNeuron(value) => Command::ClaimOrRefreshNeuron(value.clone()),
            Command::Configure(value) => Command::Configure(value.clone()),
            Command::Merge(value) => Command::Merge(value.clone()),
            Command::Spawn(value) => Command::Spawn(value.clone()),
            Command::SyncCommand(value) => Command::SyncCommand(value.clone()),
        }
    }
}

impl SameContent for Command {
    open spec fn same_content(&self, other: &Self) -> bool {
        match (self, other) {
            (Command::Disburse(a), Command::Disburse(b)) => a.same_content(b),
            (Command::Split(a), Command::Split(b)) => a.same_content(b),
            (Command::DisburseToNeuron(a), Command::DisburseToNeuron(b)) => a.same_content(b),
            (Command::MergeMaturity(a), Command::MergeMaturity(b)) => a.same_content(b),
            (Command::ClaimOrRefreshNeuron(a), Command::ClaimOrRefreshNeuron(b)) => a.same_content(b),
            (Command::Configure(a), Command::Configure(b)) => a.same_content(b),
            (Command::Merge(a), Command::Merge(b)) => a.same_content(b),
            (Command::Spawn(a), Command::Spawn(b)) => a.same_content(b),
            (Command::SyncCommand(a), Command::SyncCommand(b)) => a.same_content(b),
            _ => false,
        }
    }
}

} // verus!
