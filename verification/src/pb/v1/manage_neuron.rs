use vstd::prelude::*;
use crate::content::SameContent;

/// Nested message and enum types in `Configure`.
pub mod configure;
/// Nested message and enum types in `Disburse`.
pub mod disburse;
/// Nested message and enum types in `ClaimOrRefresh`.
pub mod claim_or_refresh;

verus! {

/// The dissolve delay of a neuron can be increased up to a maximum
/// of 8 years.
#[derive(Debug, PartialEq, Default)]
pub struct IncreaseDissolveDelay {
    pub additional_dissolve_delay_seconds: u32,
}

impl Clone for IncreaseDissolveDelay {
    fn clone(&self) -> (cloned: Self)
        ensures
            cloned.same_content(self),
    {
        IncreaseDissolveDelay {
            additional_dissolve_delay_seconds: self.additional_dissolve_delay_seconds,
        }
    }
}

impl SameContent for IncreaseDissolveDelay {
    open spec fn same_content(&self, other: &Self) -> bool {
        &&& self.additional_dissolve_delay_seconds.same_content(&other.additional_dissolve_delay_seconds)
    }
}

#[derive(Debug, PartialEq, Default)]
pub struct StartDissolving {}

impl Clone for StartDissolving {
    fn clone(&self) -> (cloned: Self)
        ensures
            cloned.same_content(self),
    {
        StartDissolving {}
    }
}

impl SameContent for StartDissolving {
    open spec fn same_content(&self, other: &Self) -> bool {
        true
    }
}

#[derive(Debug, PartialEq, Default)]
pub struct StopDissolving {}

impl Clone for StopDissolving {
    fn clone(&self) -> (cloned: Self)
        ensures
            cloned.same_content(self),
    {
        StopDissolving {}
    }
}

impl SameContent for StopDissolving {
    open spec fn same_content(&self, other: &Self) -> bool {
        true
    }
}

/// Add a new hot key that can be used to manage the neuron. This
/// provides an alternative to using the controller principal’s cold key to
/// manage the neuron, which might be onerous and difficult to keep
/// secure, especially if it is used regularly. A hot key might be a
/// WebAuthn key that is maintained inside a user device, such as a
/// smartphone.
#[derive(Debug, PartialEq, Default)]
pub struct AddHotKey {
    pub new_hot_key: Option<crate::ids::PrincipalId>,
}

impl Clone for AddHotKey {
    fn clone(&self) -> (cloned: Self)
        ensures
            cloned.same_content(self),
    {
        AddHotKey {
            new_hot_key: self.new_hot_key.clone(),
        }
    }
}

impl SameContent for AddHotKey {
    open spec fn same_content(&self, other: &Self) -> bool {
        &&& self.new_hot_key.same_content(&other.new_hot_key)
    }
}

/// Remove a hot key that has been previously assigned to the neuron.
#[derive(Debug, PartialEq, Default)]
pub struct RemoveHotKey {
    pub hot_key_to_remove: Option<crate::ids::PrincipalId>,
}

impl Clone for RemoveHotKey {
    fn clone(&self) -> (cloned: Self)
        ensures
            cloned.same_content(self),
    {
        RemoveHotKey {
            hot_key_to_remove: self.hot_key_to_remove.clone(),
        }
    }
}

impl SameContent for RemoveHotKey {
    open spec fn same_content(&self, other: &Self) -> bool {
        &&& self.hot_key_to_remove.same_content(&other.hot_key_to_remove)
    }
}

/// An (idempotent) alternative to IncreaseDissolveDelay where the dissolve delay
/// is passed as an absolute timestamp in seconds since the unix epoch.
#[derive(Debug, PartialEq, Default)]
pub struct SetDissolveTimestamp {
    pub dissolve_timestamp_seconds: u64,
}

impl Clone for SetDissolveTimestamp {
    fn clone(&self) -> (cloned: Self)
        ensures
            cloned.same_content(self),
    {
        SetDissolveTimestamp {
            dissolve_timestamp_seconds: self.dissolve_timestamp_seconds,
        }
    }
}

impl SameContent for SetDissolveTimestamp {
    open spec fn same_content(&self, other: &Self) -> bool {
        &&& self.dissolve_timestamp_seconds.same_content(&other.dissolve_timestamp_seconds)
    }
}

/// Join the Internet Computer's community fund with this neuron's present and future maturity.
#[derive(Debug, PartialEq, Default)]
pub struct JoinCommunityFund {}

impl Clone for JoinCommunityFund {
    fn clone(&self) -> (cloned: Self)
        ensures
            cloned.same_content(self),
    {
        JoinCommunityFund {}
    }
}

impl SameContent for JoinCommunityFund {
    open spec fn same_content(&self, other: &Self) -> bool {
        true
    }
}

/// Leave the Internet Computer's community fund.
#[derive(Debug, PartialEq, Default)]
pub struct LeaveCommunityFund {}

impl Clone for LeaveCommunityFund {
    fn clone(&self) -> (cloned: Self)
        ensures
            cloned.same_content(self),
    {
        LeaveCommunityFund {}
    }
}

impl SameContent for LeaveCommunityFund {
    open spec fn same_content(&self, other: &Self) -> bool {
        true
    }
}

/// Changes auto-stake maturity for this Neuron. While on, auto-stake
/// maturity will cause all the maturity generated by voting rewards
/// to this neuron to be automatically staked and contribute to the
/// voting power of the neuron.
#[derive(Debug, PartialEq, Default)]
pub struct ChangeAutoStakeMaturity {
    pub requested_setting_for_auto_stake_maturity: bool,
}

impl Clone for ChangeAutoStakeMaturity {
    fn clone(&self) -> (cloned: Self)
        ensures
            cloned.same_content(self),
    {
        ChangeAutoStakeMaturity {
            requested_setting_for_auto_stake_maturity: self.requested_setting_for_auto_stake_maturity,
        }
    }
}

impl SameContent for ChangeAutoStakeMaturity {
    open spec fn same_content(&self, other: &Self) -> bool {
        &&& self.requested_setting_for_auto_stake_maturity.same_content(&other.requested_setting_for_auto_stake_maturity)
    }
}

/// Commands that only configure a given neuron, but do not interact
/// with the outside world. They all require the caller to be the
/// controller of the neuron.
#[derive(Debug, PartialEq, Default)]
pub struct Configure {
    pub operation: Option<configure::Operation>,
}

impl Clone for Configure {
    fn clone(&self) -> (cloned: Self)
        ensures
            cloned.same_content(self),
    {
        Configure {
            operation: self.operation.clone(),
        }
    }
}

impl SameContent for Configure {
    open spec fn same_content(&self, other: &Self) -> bool {
        &&& self.operation.same_content(&other.operation)
    }
}

/// Disburse this neuron's stake: transfer the staked ICP to the
/// specified account.
#[derive(Debug, PartialEq, Default)]
pub struct Disburse {
    /// The (optional) amount to transfer. If not specified the cached
    /// stake is used.
    pub amount: Option<disburse::Amount>,
    /// The principal to which to transfer the stake.
    pub to_account: Option<crate::ids::AccountIdentifier>,
}

impl Clone for Disburse {
    fn clone(&self) -> (cloned: Self)
        ensures
            cloned.same_content(self),
    {
        Disburse {
            amount: self.amount.clone(),
            to_account: self.to_account.clone(),
        }
    }
}

impl SameContent for Disburse {
    open spec fn same_content(&self, other: &Self) -> bool {
        &&& self.amount.same_content(&other.amount)
        &&& self.to_account.same_content(&other.to_account)
    }
}

/// Split this neuron into two neurons.
///
/// The child neuron retains the parent neuron's properties.
#[derive(Debug, PartialEq, Default)]
pub struct Split {
    /// The amount to split to the child neuron.
    pub amount_e8s: u64,
}

impl Clone for Split {
    fn clone(&self) -> (cloned: Self)
        ensures
            cloned.same_content(self),
    {
        Split {
            amount_e8s: self.amount_e8s,
        }
    }
}

impl SameContent for Split {
    open spec fn same_content(&self, other: &Self) -> bool {
        &&& self.amount_e8s.same_content(&other.amount_e8s)
    }
}

/// Merge another neuron into this neuron.
#[derive(Debug, PartialEq, Default)]
pub struct Merge {
    /// The neuron to merge stake and maturity from.
    pub source_neuron_id: Option<crate::ids::NeuronId>,
}

impl Clone for Merge {
    fn clone(&self) -> (cloned: Self)
        ensures
            cloned.same_content(self),
    {
        Merge {
            source_neuron_id: self.source_neuron_id.clone(),
        }
    }
}

impl SameContent for Merge {
    open spec fn same_content(&self, other: &Self) -> bool {
        &&& self.source_neuron_id.same_content(&other.source_neuron_id)
    }
}

/// When the maturity of a neuron has risen above a threshold, it can
/// be instructed to spawn a new neuron. This creates a new neuron
/// that locks a new balance of ICP on the ledger. The new neuron can
/// remain controlled by the same principal as its parent, or be
/// assigned to a new principal.
#[derive(Debug, PartialEq, Default)]
pub struct Spawn {
    /// If not set, the spawned neuron will have the same controller as
    /// this neuron.
    pub new_controller: Option<crate::ids::PrincipalId>,
    /// The nonce with which to create the subaccount.
    pub nonce: Option<u64>,
    /// The percentage to spawn, from 1 to 100 (inclusive).
    pub percentage_to_spawn: Option<u32>,
}

impl Clone for Spawn {
    fn clone(&self) -> (cloned: Self)
        ensures
            cloned.same_content(self),
    {
        Spawn {
            new_controller: self.new_controller.clone(),
            nonce: self.nonce.clone(),
            percentage_to_spawn: self.percentage_to_spawn.clone(),
        }
    }
}

impl SameContent for Spawn {
    open spec fn same_content(&self, other: &Self) -> bool {
        &&& self.new_controller.same_content(&other.new_controller)
        &&& self.nonce.same_content(&other.nonce)
        &&& self.percentage_to_spawn.same_content(&other.percentage_to_spawn)
    }
}

impl Spawn {
    /// Returns the value of `nonce`, or the default value if `nonce` is unset.
    pub fn nonce(&self) -> (value: u64)
        ensures
            value == (match self.nonce {
                Some(field) => field,
                None => 0,
            }),
    {
        match self.nonce {
            Some(field) => field,
            None => 0,
        }
    }

    /// Returns the value of `percentage_to_spawn`, or the default value if `percentage_to_spawn` is unset.
    pub fn percentage_to_spawn(&self) -> (value: u32)
        ensures
            value == (match self.percentage_to_spawn {
                Some(field) => field,
                None => 0,
            }),
    {
        match self.percentage_to_spawn {
            Some(field) => field,
            None => 0,
        }
    }
}

/// Merge the maturity of a neuron into the current stake.
/// The caller can choose a percentage of the current maturity to merge into
/// the existing stake. The resulting amount to merge must be greater than
/// or equal to the transaction fee.
#[derive(Debug, PartialEq, Default)]
pub struct MergeMaturity {
    /// The percentage to merge, from 1 to 100 (inclusive).
    pub percentage_to_merge: u32,
}

impl Clone for MergeMaturity {
    fn clone(&self) -> (cloned: Self)
        ensures
            cloned.same_content(self),
    {
        MergeMaturity {
            percentage_to_merge: self.percentage_to_merge,
        }
    }
}

impl SameContent for MergeMaturity {
    open spec fn same_content(&self, other: &Self) -> bool {
        &&& self.percentage_to_merge.same_content(&other.percentage_to_merge)
    }
}

/// Stake the maturity of a neuron.
/// The caller can choose a percentage of of the current maturity to stake.
/// If 'percentage_to_stake' is not provided, all of the neuron's current
/// maturity will be staked.
#[derive(Debug, PartialEq, Default)]
pub struct StakeMaturity {
    /// The percentage of maturity to stake, from 1 to 100 (inclusive).
    pub percentage_to_stake: Option<u32>,
}

impl Clone for StakeMaturity {
    fn clone(&self) -> (cloned: Self)
        ensures
            cloned.same_content(self),
    {
        StakeMaturity {
            percentage_to_stake: self.percentage_to_stake.clone(),
        }
    }
}

impl SameContent for StakeMaturity {
    open spec fn same_content(&self, other: &Self) -> bool {
        &&& self.percentage_to_stake.same_content(&other.percentage_to_stake)
    }
}

impl StakeMaturity {
    /// Returns the value of `percentage_to_stake`, or the default value if `percentage_to_stake` is unset.
    pub fn percentage_to_stake(&self) -> (value: u32)
        ensures
            value == (match self.percentage_to_stake {
                Some(field) => field,
                None => 0,
            }),
    {
        match self.percentage_to_stake {
            Some(field) => field,
            None => 0,
        }
    }
}

/// Disburse a portion of this neuron's stake into another neuron.
/// This allows to split a neuron but with a new dissolve delay
/// and owned by someone else.
#[derive(Debug, PartialEq, Default)]
pub struct DisburseToNeuron {
    /// The controller of the new neuron (must be set).
    pub new_controller: Option<crate::ids::PrincipalId>,
    /// The amount to disburse.
    pub amount_e8s: u64,
    /// The dissolve delay of the new neuron.
    pub dissolve_delay_seconds: u64,
    /// Whether the new neuron has been kyc verified.
    pub kyc_verified: bool,
    /// The nonce with which to create the subaccount.
    pub nonce: u64,
}

impl Clone for DisburseToNeuron {
    fn clone(&self) -> (cloned: Self)
        ensures
            cloned.same_content(self),
    {
        DisburseToNeuron {
            new_controller: self.new_controller.clone(),
            amount_e8s: self.amount_e8s,
            dissolve_delay_seconds: self.dissolve_delay_seconds,
            kyc_verified: self.kyc_verified,
            nonce: self.nonce,
        }
    }
}

impl SameContent for DisburseToNeuron {
    open spec fn same_content(&self, other: &Self) -> bool {
        &&& self.new_controller.same_content(&other.new_controller)
        &&& self.amount_e8s.same_content(&other.amount_e8s)
        &&& self.dissolve_delay_seconds.same_content(&other.dissolve_delay_seconds)
        &&& self.kyc_verified.same_content(&other.kyc_verified)
        &&& self.nonce.same_content(&other.nonce)
    }
}

/// Add a rule that enables the neuron to vote automatically on
/// proposals that belong to a specific topic, by specifying a group
/// of followee neurons whose majority vote is followed. The
/// configuration of such follow rules can be used to a) distribute
/// control over voting power amongst multiple entities, b) have a
/// neuron vote automatically when its owner lacks time to evaluate
/// newly submitted proposals, c) have a neuron vote automatically
/// when its own lacks the expertise to evaluate newly submitted
/// proposals, and d) for other purposes. A follow rule specifies a
/// set of followees. Once a majority of the followees votes to adopt
/// or reject a proposal belonging to the specified topic, the neuron
/// votes the same way. If it becomes impossible for a majority of
/// the followees to adopt (for example, because they are split 50-50
/// between adopt and reject), then the neuron votes to reject. If a
/// rule is specified where the proposal topic is UNSPECIFIED, then it
/// becomes a catch-all follow rule, which will be used to vote
/// automatically on proposals belonging to topics for which no
/// specific rule has been specified.
///
/// If the list 'followees' is empty, this removes following for a
/// specific topic.
#[derive(Debug, PartialEq, Default)]
pub struct Follow {
    /// Topic UNSPECIFIED means add following for the 'catch all'.
    pub topic: i32,
    pub followees: Vec<crate::ids::NeuronId>,
}

impl Clone for Follow {
    fn clone(&self) -> (cloned: Self)
        ensures
            cloned.same_content(self),
    {
        Follow {
            topic: self.topic,
            followees: self.followees.clone(),
        }
    }
}

impl SameContent for Follow {
    open spec fn same_content(&self, other: &Self) -> bool {
        &&& self.topic.same_content(&other.topic)
        &&& self.followees.same_content(&other.followees)
    }
}

impl Follow {
    /// Returns the enum value of `topic`, or the default if the field is set to an invalid enum value.
    pub fn topic(&self) -> (value: super::Topic)
        ensures
            value == super::Topic::from_i32_or_default(self.topic),
    {
        match super::Topic::from_i32(self.topic) {
            Some(value) => value,
            None => super::Topic::default(),
        }
    }

    /// Sets `topic` to the provided enum value.
    pub fn set_topic(&mut self, value: super::Topic)
        ensures
            *final(self) == (Follow { topic: value.spec_value(), ..*old(self) }),
    {
        self.topic = i32::from(value);
    }

    /// `topic` gives back the value that `set_topic` set.
    pub proof fn lemma_topic_after_set_topic(self, value: super::Topic)
        ensures
            super::Topic::from_i32_or_default((Follow { topic: value.spec_value(), ..self }).topic) == value,
    {
        value.lemma_value_round_trip();
    }
}

/// Have the neuron vote to either adopt or reject a proposal with a specified
/// id.
#[derive(Debug, PartialEq, Default)]
pub struct RegisterVote {
    pub proposal: Option<crate::ids::ProposalId>,
    pub vote: i32,
}

impl Clone for RegisterVote {
    fn clone(&self) -> (cloned: Self)
        ensures
            cloned.same_content(self),
    {
        RegisterVote {
            proposal: self.proposal.clone(),
            vote: self.vote,
        }
    }
}

impl SameContent for RegisterVote {
    open spec fn same_content(&self, other: &Self) -> bool {
        &&& self.proposal.same_content(&other.proposal)
        &&& self.vote.same_content(&other.vote)
    }
}

impl RegisterVote {
    /// Returns the enum value of `vote`, or the default if the field is set to an invalid enum value.
    pub fn vote(&self) -> (value: super::Vote)
        ensures
            value == super::Vote::from_i32_or_default(self.vote),
    {
        match super::Vote::from_i32(self.vote) {
            Some(value) => value,
            None => super::Vote::default(),
        }
    }

    /// Sets `vote` to the provided enum value.
    pub fn set_vote(&mut self, value: super::Vote)
        ensures
            *final(self) == (RegisterVote { vote: value.spec_value(), ..*old(self) }),
    {
        self.vote = i32::from(value);
    }

    /// `vote` gives back the value that `set_vote` set.
    pub proof fn lemma_vote_after_set_vote(self, value: super::Vote)
        ensures
            super::Vote::from_i32_or_default((RegisterVote { vote: value.spec_value(), ..self }).vote) == value,
    {
        value.lemma_value_round_trip();
    }
}

/// Claim a new neuron or refresh the stake of an existing neuron.
#[derive(Debug, PartialEq, Default)]
pub struct ClaimOrRefresh {
    pub by: Option<claim_or_refresh::By>,
}

impl Clone for ClaimOrRefresh {
    fn clone(&self) -> (cloned: Self)
        ensures
            cloned.same_content(self),
    {
        ClaimOrRefresh {
            by: self.by.clone(),
        }
    }
}

impl SameContent for ClaimOrRefresh {
    open spec fn same_content(&self, other: &Self) -> bool {
        &&& self.by.same_content(&other.by)
    }
}

/// The ID of the neuron to manage. This can either be a subaccount or a neuron ID.
#[derive(Debug, PartialEq)]
pub enum NeuronIdOrSubaccount {
    Subaccount(Vec<u8>),
    NeuronId(crate::ids::NeuronId),
}

impl Clone for NeuronIdOrSubaccount {
    fn clone(&self) -> (cloned: Self)
        ensures
            cloned.same_content(self),
    {
        match self {
            NeuronIdOrSubaccount::Subaccount(value) => NeuronIdOrSubaccount::Subaccount(value.clone()),
            NeuronIdOrSubaccount::NeuronId(value) => NeuronIdOrSubaccount::NeuronId(value.clone()),
        }
    }
}

impl SameContent for NeuronIdOrSubaccount {
    open spec fn same_content(&self, other: &Self) -> bool {
        match (self, other) {
            (NeuronIdOrSubaccount::Subaccount(a), NeuronIdOrSubaccount::Subaccount(b)) => a.same_content(b),
            (NeuronIdOrSubaccount::NeuronId(a), NeuronIdOrSubaccount::NeuronId(b)) => a.same_content(b),
            _ => false,
        }
    }
}

#[derive(Debug, PartialEq)]
pub enum Command {
    Configure(Configure),
    Disburse(Disburse),
    Spawn(Spawn),
    Follow(Follow),
    MakeProposal(Box<super::Proposal>),
    RegisterVote(RegisterVote),
    Split(Split),
    DisburseToNeuron(DisburseToNeuron),
    ClaimOrRefresh(ClaimOrRefresh),
    MergeMaturity(MergeMaturity),
    Merge(Merge),
    StakeMaturity(StakeMaturity),
}

impl Command {
    /// Whether `other` is the same variant as `self`.
    pub open spec fn same_variant(self, other: Command) -> bool {
        ||| self is Configure && other is Configure
        ||| self is Disburse && other is Disburse
        ||| self is Spawn && other is Spawn
        ||| self is Follow && other is Follow
        ||| self is MakeProposal && other is MakeProposal
        ||| self is RegisterVote && other is RegisterVote
        ||| self is Split && other is Split
        ||| self is DisburseToNeuron && other is DisburseToNeuron
        ||| self is ClaimOrRefresh && other is ClaimOrRefresh
        ||| self is MergeMaturity && other is MergeMaturity
        ||| self is Merge && other is Merge
        ||| self is StakeMaturity && other is StakeMaturity
    }
}

impl Clone for Command {
    fn clone(&self) -> (cloned: Self)
        ensures
            self.same_variant(cloned),
            self matches Command::MakeProposal(proposal) ==> cloned matches Command::MakeProposal(
                copy,
            ) && copy.title == proposal.title && copy.summary == proposal.summary && copy.url
                == proposal.url,
            cloned.same_content(self),
        decreases self,
    {
        match self {
            Command::Configure(value) => Command::Configure(value.clone()),
            Command::Disburse(value) => Command::Disburse(value.clone()),
            Command::Spawn(value) => Command::Spawn(value.clone()),
            Command::Follow(value) => Command::Follow(value.clone()),
            Command::MakeProposal(boxed) => Command::MakeProposal(Box::new((**boxed).clone())),
            Command::RegisterVote(value) => Command::RegisterVote(value.clone()),
            Command::Split(value) => Command::Split(value.clone()),
            Command::DisburseToNeuron(value) => Command::DisburseToNeuron(value.clone()),
            Command::ClaimOrRefresh(value) => Command::ClaimOrRefresh(value.clone()),
            Command::MergeMaturity(value) => Command::MergeMaturity(value.clone()),
            Command::Merge(value) => Command::Merge(value.clone()),
            Command::StakeMaturity(value) => Command::StakeMaturity(value.clone()),
        }
    }
}

impl SameContent for Command {
    open spec fn same_content(&self, other: &Self) -> bool
        decreases self,
    {
        match (self, other) {
            (Command::Configure(a), Command::Configure(b)) => a.same_content(b),
            (Command::Disburse(a), Command::Disburse(b)) => a.same_content(b),
            (Command::Spawn(a), Command::Spawn(b)) => a.same_content(b),
            (Command::Follow(a), Command::Follow(b)) => a.same_content(b),
            (Command::MakeProposal(a), Command::MakeProposal(b)) => (**a).same_content(&**b),
            (Command::RegisterVote(a), Command::RegisterVote(b)) => a.same_content(b),
            (Command::Split(a), Command::Split(b)) => a.same_content(b),
            (Command::DisburseToNeuron(a), Command::DisburseToNeuron(b)) => a.same_content(b),
            (Command::ClaimOrRefresh(a), Command::ClaimOrRefresh(b)) => a.same_content(b),
            (Command::MergeMaturity(a), Command::MergeMaturity(b)) => a.same_content(b),
            (Command::Merge(a), Command::Merge(b)) => a.same_content(b),
            (Command::StakeMaturity(a), Command::StakeMaturity(b)) => a.same_content(b),
            _ => false,
        }
    }
}

} // verus!
