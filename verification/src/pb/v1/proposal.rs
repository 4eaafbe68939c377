use vstd::prelude::*;
use crate::content::SameContent;

verus! {

/// This section describes the action that the proposal proposes to
/// take.
#[derive(Debug, PartialEq)]
pub enum Action {
    /// This type of proposal calls a major function on a specified
    /// target neuron. Only the followees of the target neuron (on the
    /// topic \[Topic::ManageNeuron\]) may vote on these proposals,
    /// which effectively provides the followees with control over the
    /// target neuron. This can provide a convenient and highly secure
    /// means for a team of individuals to manage an important
    /// neuron. For example, a neuron might hold a large balance, or
    /// belong to an organization of high repute, and be publicized so
    /// that many other neurons can follow its vote. In both cases,
    /// managing the private key of the principal securely could be
    /// problematic (either a single copy is held, which is very
    /// insecure and provides for a single party to take control, or a
    /// group of individuals must divide responsibility, for example
    /// using threshold cryptography, which is complex and time
    /// consuming). To address this, using this proposal type, the
    /// important neuron can be configured to follow the neurons
    /// controlled by individual members of a team. Now they can submit
    /// proposals to make the important neuron perform actions, which
    /// are adopted if and only if a majority of them vote to
    /// adopt. Nearly any command on the target neuron can be executed,
    /// including commands that change the follow rules, allowing the
    /// set of team members to be dynamic. Only the final step of
    /// dissolving the neuron once its dissolve delay reaches zero
    /// cannot be performed using this type of proposal (since this
    /// would allow control/“ownership” over the locked balances to be
    /// transferred). To prevent a neuron falling under the malign
    /// control of the principal’s private key by accident, the private
    /// key can be destroyed so that the neuron can only be controlled
    /// by its followees, although this makes it impossible to
    /// subsequently unlock the balance.
    ManageNeuron(Box<super::ManageNeuron>),
    /// Propose a change to some network parameters of network
    /// economics.
    ManageNetworkEconomics(super::NetworkEconomics),
    /// See \[Motion\]
    Motion(super::Motion),
    /// A update affecting something outside of the Governance
    /// canister.
    ExecuteNnsFunction(super::ExecuteNnsFunction),
    /// Approve Genesis KYC for a given list of principals.
    ApproveGenesisKyc(super::ApproveGenesisKyc),
    /// Add/remove NodeProvider from the list of NodeProviders
    AddOrRemoveNodeProvider(super::AddOrRemoveNodeProvider),
    /// Reward a NodeProvider
    RewardNodeProvider(super::RewardNodeProvider),
    /// Set the default following
    SetDefaultFollowees(super::SetDefaultFollowees),
    /// Reward multiple NodeProvider
    RewardNodeProviders(super::RewardNodeProviders),
    /// Register Known Neuron
    RegisterKnownNeuron(super::KnownNeuron),
    /// Obsolete. Superseded by CreateServiceNervousSystem. Kept for Candid compatibility.
    SetSnsTokenSwapOpenTimeWindow(super::SetSnsTokenSwapOpenTimeWindow),
    /// Call the open method on an SNS swap canister.
    ///
    /// This is still supported but will soon be superseded by
    /// CreateServiceNervousSystem.
    OpenSnsTokenSwap(super::OpenSnsTokenSwap),
    /// Create a new SNS.
    CreateServiceNervousSystem(super::CreateServiceNervousSystem),
}

impl Action {
    /// Whether `other` is the same variant as `self`.
    pub open spec fn same_variant(self, other: Action) -> bool {
        ||| self is ManageNeuron && other is ManageNeuron
        ||| self is ManageNetworkEconomics && other is ManageNetworkEconomics
        ||| self is Motion && other is Motion
        ||| self is ExecuteNnsFunction && other is ExecuteNnsFunction
        ||| self is ApproveGenesisKyc && other is ApproveGenesisKyc
        ||| self is AddOrRemoveNodeProvider && other is AddOrRemoveNodeProvider
        ||| self is RewardNodeProvider && other is RewardNodeProvider
        ||| self is SetDefaultFollowees && other is SetDefaultFollowees
        ||| self is RewardNodeProviders && other is RewardNodeProviders
        ||| self is RegisterKnownNeuron && other is RegisterKnownNeuron
        ||| self is SetSnsTokenSwapOpenTimeWindow && other is SetSnsTokenSwapOpenTimeWindow
        ||| self is OpenSnsTokenSwap && other is OpenSnsTokenSwap
        ||| self is CreateServiceNervousSystem && other is CreateServiceNervousSystem
    }
}

impl Clone for Action {
    fn clone(&self) -> (cloned: Self)
        ensures
            self.same_variant(cloned),
            self matches Action::ManageNeuron(manage) ==> cloned matches Action::ManageNeuron(copy)
                && copy.id == manage.id,
            cloned.same_content(self),
        decreases self,
    {
        match self {
            Action::ManageNeuron(boxed) => Action::ManageNeuron(Box::new((**boxed).clone())),
            Action::ManageNetworkEconomics(value) => Action::ManageNetworkEconomics(value.clone()),
            Action::Motion(value) => Action::Motion(value.clone()),
            Action::ExecuteNnsFunction(value) => Action::ExecuteNnsFunction(value.clone()),
            Action::ApproveGenesisKyc(value) => Action::ApproveGenesisKyc(value.clone()),
            Action::AddOrRemoveNodeProvider(value) => Action::AddOrRemoveNodeProvider(value.clone()),
            Action::RewardNodeProvider(value) => Action::RewardNodeProvider(value.clone()),
            Action::SetDefaultFollowees(value) => Action::SetDefaultFollowees(value.clone()),
            Action::RewardNodeProviders(value) => Action::RewardNodeProviders(value.clone()),
            Action::RegisterKnownNeuron(value) => Action::RegisterKnownNeuron(value.clone()),
            Action::SetSnsTokenSwapOpenTimeWindow(value) => Action::SetSnsTokenSwapOpenTimeWindow(value.clone()),
            Action::OpenSnsTokenSwap(value) => Action::OpenSnsTokenSwap(value.clone()),
            Action::CreateServiceNervousSystem(value) => Action::CreateServiceNervousSystem(value.clone()),
        }
    }
}

impl SameContent for Action {
    open spec fn same_content(&self, other: &Self) -> bool
        decreases self,
    {
        match (self, other) {
            (Action::ManageNeuron(a), Action::ManageNeuron(b)) => (**a).same_content(&**b),
            (Action::ManageNetworkEconomics(a), Action::ManageNetworkEconomics(b)) => a.same_content(b),
            (Action::Motion(a), Action::Motion(b)) => a.same_content(b),
            (Action::ExecuteNnsFunction(a), Action::ExecuteNnsFunction(b)) => a.same_content(b),
            (Action::ApproveGenesisKyc(a), Action::ApproveGenesisKyc(b)) => a.same_content(b),
            (Action::AddOrRemoveNodeProvider(a), Action::AddOrRemoveNodeProvider(b)) => a.same_content(b),
            (Action::RewardNodeProvider(a), Action::RewardNodeProvider(b)) => a.same_content(b),
            (Action::SetDefaultFollowees(a), Action::SetDefaultFollowees(b)) => a.same_content(b),
            (Action::RewardNodeProviders(a), Action::RewardNodeProviders(b)) => a.same_content(b),
            (Action::RegisterKnownNeuron(a), Action::RegisterKnownNeuron(b)) => a.same_content(b),
            (Action::SetSnsTokenSwapOpenTimeWindow(a), Action::SetSnsTokenSwapOpenTimeWindow(b)) => a.same_content(b),
            (Action::OpenSnsTokenSwap(a), Action::OpenSnsTokenSwap(b)) => a.same_content(b),
            (Action::CreateServiceNervousSystem(a), Action::CreateServiceNervousSystem(b)) => a.same_content(b),
            _ => false,
        }
    }
}

impl Action {
    /// Two actions with the same content that execute an NNS function
    /// execute the same function with the same payload.
    pub proof fn lemma_same_content_execute_nns_function(self, other: Action)
        requires
            self.same_content(&other),
            self is ExecuteNnsFunction,
        ensures
            other is ExecuteNnsFunction,
            other->ExecuteNnsFunction_0.nns_function == self->ExecuteNnsFunction_0.nns_function,
            other->ExecuteNnsFunction_0.payload@ == self->ExecuteNnsFunction_0.payload@,
    {
        let mine = self->ExecuteNnsFunction_0.payload@;
        let theirs = other->ExecuteNnsFunction_0.payload@;
        assert forall|i: int| 0 <= i < mine.len() implies theirs[i] == mine[i] by {
            assert(mine[i].same_content(&theirs[i]));
        }
        assert(theirs =~= mine);
    }
}

} // verus!
