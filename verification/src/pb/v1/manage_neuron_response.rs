use vstd::prelude::*;
use crate::content::SameContent;

verus! {

#[derive(Debug, PartialEq, Default)]
pub struct ConfigureResponse {}

impl Clone for ConfigureResponse {
    fn clone(&self) -> (cloned: Self)
        ensures
            cloned.same_content(self),
    {
        ConfigureResponse {}
    }
}

impl SameContent for ConfigureResponse {
    open spec fn same_content(&self, other: &Self) -> bool {
        true
    }
}

#[derive(Debug, PartialEq, Default)]
pub struct DisburseResponse {
    /// The block height at which the disburse transfer happened
    pub transfer_block_height: u64,
}

impl Clone for DisburseResponse {
    fn clone(&self) -> (cloned: Self)
        ensures
            cloned.same_content(self),
    {
        DisburseResponse {
            transfer_block_height: self.transfer_block_height,
        }
    }
}

impl SameContent for DisburseResponse {
    open spec fn same_content(&self, other: &Self) -> bool {
        &&& self.transfer_block_height.same_content(&other.transfer_block_height)
    }
}

#[derive(Debug, PartialEq, Default)]
pub struct SpawnResponse {
    /// The ID of the Neuron created from spawning a Neuron
    pub created_neuron_id: Option<crate::ids::NeuronId>,
}

impl Clone for SpawnResponse {
    fn clone(&self) -> (cloned: Self)
        ensures
            cloned.same_content(self),
    {
        SpawnResponse {
            created_neuron_id: self.created_neuron_id.clone(),
        }
    }
}

impl SameContent for SpawnResponse {
    open spec fn same_content(&self, other: &Self) -> bool {
        &&& self.created_neuron_id.same_content(&other.created_neuron_id)
    }
}

#[derive(Debug, PartialEq, Default)]
pub struct MergeMaturityResponse {
    pub merged_maturity_e8s: u64,
    pub new_stake_e8s: u64,
}

impl Clone for MergeMaturityResponse {
    fn clone(&self) -> (cloned: Self)
        ensures
            cloned.same_content(self),
    {
        MergeMaturityResponse {
            merged_maturity_e8s: self.merged_maturity_e8s,
            new_stake_e8s: self.new_stake_e8s,
        }
    }
}

impl SameContent for MergeMaturityResponse {
    open spec fn same_content(&self, other: &Self) -> bool {
        &&& self.merged_maturity_e8s.same_content(&other.merged_maturity_e8s)
        &&& self.new_stake_e8s.same_content(&other.new_stake_e8s)
    }
}

#[derive(Debug, PartialEq, Default)]
pub struct StakeMaturityResponse {
    pub maturity_e8s: u64,
    pub staked_maturity_e8s: u64,
}

impl Clone for StakeMaturityResponse {
    fn clone(&self) -> (cloned: Self)
        ensures
            cloned.same_content(self),
    {
        StakeMaturityResponse {
            maturity_e8s: self.maturity_e8s,
            staked_maturity_e8s: self.staked_maturity_e8s,
        }
    }
}

impl SameContent for StakeMaturityResponse {
    open spec fn same_content(&self, other: &Self) -> bool {
        &&& self.maturity_e8s.same_content(&other.maturity_e8s)
        &&& self.staked_maturity_e8s.same_content(&other.staked_maturity_e8s)
    }
}

#[derive(Debug, PartialEq, Default)]
pub struct FollowResponse {}

impl Clone for FollowResponse {
    fn clone(&self) -> (cloned: Self)
        ensures
            cloned.same_content(self),
    {
        FollowResponse {}
    }
}

impl SameContent for FollowResponse {
    open spec fn same_content(&self, other: &Self) -> bool {
        true
    }
}

#[derive(Debug, PartialEq, Default)]
pub struct MakeProposalResponse {
    /// The ID of the created proposal
    pub proposal_id: Option<crate::ids::ProposalId>,
}

impl Clone for MakeProposalResponse {
    fn clone(&self) -> (cloned: Self)
        ensures
            cloned.same_content(self),
    {
        MakeProposalResponse {
            proposal_id: self.proposal_id.clone(),
        }
    }
}

impl SameContent for MakeProposalResponse {
    open spec fn same_content(&self, other: &Self) -> bool {
        &&& self.proposal_id.same_content(&other.proposal_id)
    }
}

#[derive(Debug, PartialEq, Default)]
pub struct RegisterVoteResponse {}

impl Clone for RegisterVoteResponse {
    fn clone(&self) -> (cloned: Self)
        ensures
            cloned.same_content(self),
    {
        RegisterVoteResponse {}
    }
}

impl SameContent for RegisterVoteResponse {
    open spec fn same_content(&self, other: &Self) -> bool {
        true
    }
}

#[derive(Debug, PartialEq, Default)]
pub struct SplitResponse {
    /// The ID of the Neuron created from splitting another Neuron
    pub created_neuron_id: Option<crate::ids::NeuronId>,
}

impl Clone for SplitResponse {
    fn clone(&self) -> (cloned: Self)
        ensures
            cloned.same_content(self),
    {
        SplitResponse {
            created_neuron_id: self.created_neuron_id.clone(),
        }
    }
}

impl SameContent for SplitResponse {
    open spec fn same_content(&self, other: &Self) -> bool {
        &&& self.created_neuron_id.same_content(&other.created_neuron_id)
    }
}

/// A response for merging or simulating merge neurons
#[derive(Debug, PartialEq, Default)]
pub struct MergeResponse {
    /// The resulting state of the source neuron
    pub source_neuron: Option<super::Neuron>,
    /// The resulting state of the target neuron
    pub target_neuron: Option<super::Neuron>,
    /// The NeuronInfo of the source neuron
    pub source_neuron_info: Option<super::NeuronInfo>,
    /// The NeuronInfo of the target neuron
    pub target_neuron_info: Option<super::NeuronInfo>,
}

impl Clone for MergeResponse {
    fn clone(&self) -> (cloned: Self)
        ensures
            cloned.same_content(self),
    {
        MergeResponse {
            source_neuron: self.source_neuron.clone(),
            target_neuron: self.target_neuron.clone(),
            source_neuron_info: self.source_neuron_info.clone(),
            target_neuron_info: self.target_neuron_info.clone(),
        }
    }
}

impl SameContent for MergeResponse {
    open spec fn same_content(&self, other: &Self) -> bool {
        &&& self.source_neuron.same_content(&other.source_neuron)
        &&& self.target_neuron.same_content(&other.target_neuron)
        &&& self.source_neuron_info.same_content(&other.source_neuron_info)
        &&& self.target_neuron_info.same_content(&other.target_neuron_info)
    }
}

#[derive(Debug, PartialEq, Default)]
pub struct DisburseToNeuronResponse {
    /// The ID of the Neuron created from disbursing a Neuron
    pub created_neuron_id: Option<crate::ids::NeuronId>,
}

impl Clone for DisburseToNeuronResponse {
    fn clone(&self) -> (cloned: Self)
        ensures
            cloned.same_content(self),
    {
        DisburseToNeuronResponse {
            created_neuron_id: self.created_neuron_id.clone(),
        }
    }
}

impl SameContent for DisburseToNeuronResponse {
    open spec fn same_content(&self, other: &Self) -> bool {
        &&& self.created_neuron_id.same_content(&other.created_neuron_id)
    }
}

#[derive(Debug, PartialEq, Default)]
pub struct ClaimOrRefreshResponse {
    pub refreshed_neuron_id: Option<crate::ids::NeuronId>,
}

impl Clone for ClaimOrRefreshResponse {
    fn clone(&self) -> (cloned: Self)
        ensures
            cloned.same_content(self),
    {
        ClaimOrRefreshResponse {
            refreshed_neuron_id: self.refreshed_neuron_id.clone(),
        }
    }
}

impl SameContent for ClaimOrRefreshResponse {
    open spec fn same_content(&self, other: &Self) -> bool {
        &&& self.refreshed_neuron_id.same_content(&other.refreshed_neuron_id)
    }
}

#[derive(Debug, PartialEq)]
pub enum Command {
    Error(super::GovernanceError),
    Configure(ConfigureResponse),
    Disburse(DisburseResponse),
    Spawn(SpawnResponse),
    Follow(FollowResponse),
    MakeProposal(MakeProposalResponse),
    RegisterVote(RegisterVoteResponse),
    Split(SplitResponse),
    DisburseToNeuron(DisburseToNeuronResponse),
    ClaimOrRefresh(ClaimOrRefreshResponse),
    MergeMaturity(MergeMaturityResponse),
    Merge(MergeResponse),
    StakeMaturity(StakeMaturityResponse),
}

impl Clone for Command {
    fn clone(&self) -> (cloned: Self)
        ensures
            cloned.same_content(self),
    {
        match self {
            Command::Error(value) => Command::Error(value.clone()),
            Command::Configure(value) => Command::Configure(value.clone()),
            Command::Disburse(value) => Command::Disburse(value.clone()),
            Command::Spawn(value) => Command::Spawn(value.clone()),
            Command::Follow(value) => Command::Follow(value.clone()),
            Command::MakeProposal(value) => Command::MakeProposal(value.clone()),
            Command::RegisterVote(value) => Command::RegisterVote(value.clone()),
            Command::Split(value) => Command::Split(value.clone()),
            Command::DisburseToNeuron(value) => Command::DisburseToNeuron(value.clone()),
            Command::ClaimOrRefresh(value) => Command::ClaimOrRefresh(value.clone()),
            Command::MergeMaturity(value) => Command::MergeMaturity(value.clone()),
            Command::Merge(value) => Command::Merge(value.clone()),
            Command::StakeMaturity(value) => Command::StakeMaturity(value.clone()),
        }
    }
}

impl SameContent for Command {
    open spec fn same_content(&self, other: &Self) -> bool {
        match (self, other) {
            (Command::Error(a), Command::Error(b)) => a.same_content(b),
            (Command::Configure(a), Command::Configure(b)) => a.same_content(b),
            (Command::Disburse(a), Command::Disburse(b)) => a.same_content(b),
            (Command::Spawn(a), Command::Spawn(b)) => a.same_content(b),
            (Command::Follow(a), Command::Follow(b)) => a.same_content(b),
            (Command::MakeProposal(a), Command::MakeProposal(b)) => a.same_content(b),
            (Command::RegisterVote(a), Command::RegisterVote(b)) => a.same_content(b),
            (Command::Split(a), Command::Split(b)) => a.same_content(b),
            (Command::DisburseToNeuron(a), Command::DisburseToNeuron(b)) => a.same_content(b),
            (Command::ClaimOrRefresh(a), Command::ClaimOrRefresh(b)) => a.same_content(b),
            (Command::MergeMaturity(a), Command::MergeMaturity(b)) => a.same_content(b),
            (Command::Merge(a), Command::Merge(b)) => a.same_content(b),
            (Command::StakeMaturity(a), Command::StakeMaturity(b)) => a.same_content(b),
            _ => false,
        }
    }
}

} // verus!
