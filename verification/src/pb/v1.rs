use vstd::prelude::*;
use crate::content::SameContent;
use vstd::std_specs::convert::FromSpecImpl;
use std::collections::HashMap;
use std::collections::BTreeMap;

/// Nested message and enum types in `Neuron`.
pub mod neuron;
/// Nested message and enum types in `AddOrRemoveNodeProvider`.
pub mod add_or_remove_node_provider;
/// Nested message and enum types in `RewardNodeProvider`.
pub mod reward_node_provider;
/// Nested message and enum types in `Proposal`.
pub mod proposal;
/// Nested message and enum types in `ManageNeuron`.
pub mod manage_neuron;
/// Nested message and enum types in `ManageNeuronResponse`.
pub mod manage_neuron_response;
/// Nested message and enum types in `GovernanceError`.
pub mod governance_error;
/// Nested message and enum types in `SwapBackgroundInformation`.
pub mod swap_background_information;
/// Nested message and enum types in `CreateServiceNervousSystem`.
pub mod create_service_nervous_system;
/// Nested message and enum types in `Governance`.
pub mod governance;
/// Nested message and enum types in `ClaimOrRefreshNeuronFromAccountResponse`.
pub mod claim_or_refresh_neuron_from_account_response;
/// Nested message and enum types in `SettleCommunityFundParticipation`.
pub mod settle_community_fund_participation;
/// Nested message and enum types in `AuditEvent`.
pub mod audit_event;

verus! {

/// The entity that owns the nodes that run the network.
///
/// Note that this is different from a node operator, the entity that
/// operates the nodes. In terms of responsibilities, the node operator
/// is responsible for adding/removing and generally making sure that
/// the nodes are working, while the NodeProvider is the entity that
/// is compensated.
///
/// Note: The NodeOperatorRecord is defined in:
/// rs/protobuf/def/registry/node_operator/v1/node_operator.proto.
#[derive(Debug, PartialEq, Default)]
pub struct NodeProvider {
    /// The ID of the node provider.
    pub id: Option<crate::ids::PrincipalId>,
    /// The account where rewards earned from providing nodes will be sent.
    pub reward_account: Option<crate::ids::AccountIdentifier>,
}

impl Clone for NodeProvider {
    fn clone(&self) -> (cloned: Self)
        ensures
            cloned.same_content(self),
    {
        NodeProvider {
            id: self.id.clone(),
            reward_account: self.reward_account.clone(),
        }
    }
}

impl SameContent for NodeProvider {
    open spec fn same_content(&self, other: &Self) -> bool {
        &&& self.id.same_content(&other.id)
        &&& self.reward_account.same_content(&other.reward_account)
    }
}

/// Used to update node provider records
///
/// There is no need to specify a node provider Principal ID here, as Governance
/// uses the Principal ID of the caller as the Node Provider Principal ID.
#[derive(Debug, PartialEq, Default)]
pub struct UpdateNodeProvider {
    /// The account where rewards earned from providing nodes will be sent.
    pub reward_account: Option<crate::ids::AccountIdentifier>,
}

impl Clone for UpdateNodeProvider {
    fn clone(&self) -> (cloned: Self)
        ensures
            cloned.same_content(self),
    {
        UpdateNodeProvider {
            reward_account: self.reward_account.clone(),
        }
    }
}

impl SameContent for UpdateNodeProvider {
    open spec fn same_content(&self, other: &Self) -> bool {
        &&& self.reward_account.same_content(&other.reward_account)
    }
}

/// How did a neuron vote in the recent past? This data is used by
/// other neurons to determine what neurons to follow.
#[derive(Debug, PartialEq, Eq, Default)]
pub struct BallotInfo {
    pub proposal_id: Option<crate::ids::ProposalId>,
    pub vote: i32,
}

impl Clone for BallotInfo {
    fn clone(&self) -> (cloned: Self)
        ensures
            cloned.same_content(self),
    {
        BallotInfo {
            proposal_id: self.proposal_id.clone(),
            vote: self.vote,
        }
    }
}

impl SameContent for BallotInfo {
    open spec fn same_content(&self, other: &Self) -> bool {
        &&& self.proposal_id.same_content(&other.proposal_id)
        &&& self.vote.same_content(&other.vote)
    }
}

impl BallotInfo {
    /// Returns the enum value of `vote`, or the default if the field is set to an invalid enum value.
    pub fn vote(&self) -> (value: Vote)
        ensures
            value == Vote::from_i32_or_default(self.vote),
    {
        match Vote::from_i32(self.vote) {
            Some(value) => value,
            None => Vote::default(),
        }
    }

    /// Sets `vote` to the provided enum value.
    pub fn set_vote(&mut self, value: Vote)
        ensures
            *final(self) == (BallotInfo { vote: value.spec_value(), ..*old(self) }),
    {
        self.vote = i32::from(value);
    }

    /// `vote` gives back the value that `set_vote` set.
    pub proof fn lemma_vote_after_set_vote(self, value: Vote)
        ensures
            Vote::from_i32_or_default((BallotInfo { vote: value.spec_value(), ..self }).vote) == value,
    {
        value.lemma_value_round_trip();
    }
}

/// The result of querying for the state of a single neuron.
#[derive(Debug, PartialEq, Eq, Default)]
pub struct NeuronInfo {
    /// The exact time at which this data was computed. This means, for
    /// example, that the exact time that this neuron will enter the
    /// dissolved state, assuming it is currently dissolving, is given
    /// by `retrieved_at_timestamp_seconds+dissolve_delay_seconds`.
    pub retrieved_at_timestamp_seconds: u64,
    /// The current state of the neuron. See \[NeuronState\] for a
    /// description of the different states.
    pub state: i32,
    /// The current age of the neuron. See \[Neuron::age_seconds\]
    /// for details on how it is computed.
    pub age_seconds: u64,
    /// The current dissolve delay of the neuron. See
    /// \[Neuron::dissolve_delay_seconds\] for details on how it is
    /// computed.
    pub dissolve_delay_seconds: u64,
    /// See \[Neuron::recent_ballots\] for a description.
    pub recent_ballots: Vec<BallotInfo>,
    /// Current voting power of the neuron.
    pub voting_power: u64,
    /// When the Neuron was created. A neuron can only vote on proposals
    /// submitted after its creation date.
    pub created_timestamp_seconds: u64,
    /// Current stake of the neuron, in e8s.
    pub stake_e8s: u64,
    /// Timestamp when this neuron joined the community fund.
    pub joined_community_fund_timestamp_seconds: Option<u64>,
    /// If this neuron is a known neuron, this is data associated with it, including the neuron's name and (optionally) a description.
    pub known_neuron_data: Option<KnownNeuronData>,
}

impl Clone for NeuronInfo {
    fn clone(&self) -> (cloned: Self)
        ensures
            cloned.same_content(self),
    {
        NeuronInfo {
            retrieved_at_timestamp_seconds: self.retrieved_at_timestamp_seconds,
            state: self.state,
            age_seconds: self.age_seconds,
            dissolve_delay_seconds: self.dissolve_delay_seconds,
            recent_ballots: self.recent_ballots.clone(),
            voting_power: self.voting_power,
            created_timestamp_seconds: self.created_timestamp_seconds,
            stake_e8s: self.stake_e8s,
            joined_community_fund_timestamp_seconds: self.joined_community_fund_timestamp_seconds.clone(),
            known_neuron_data: self.known_neuron_data.clone(),
        }
    }
}

impl SameContent for NeuronInfo {
    open spec fn same_content(&self, other: &Self) -> bool {
        &&& self.retrieved_at_timestamp_seconds.same_content(&other.retrieved_at_timestamp_seconds)
        &&& self.state.same_content(&other.state)
        &&& self.age_seconds.same_content(&other.age_seconds)
        &&& self.dissolve_delay_seconds.same_content(&other.dissolve_delay_seconds)
        &&& self.recent_ballots.same_content(&other.recent_ballots)
        &&& self.voting_power.same_content(&other.voting_power)
        &&& self.created_timestamp_seconds.same_content(&other.created_timestamp_seconds)
        &&& self.stake_e8s.same_content(&other.stake_e8s)
        &&& self.joined_community_fund_timestamp_seconds.same_content(&other.joined_community_fund_timestamp_seconds)
        &&& self.known_neuron_data.same_content(&other.known_neuron_data)
    }
}

impl NeuronInfo {
    /// Returns the enum value of `state`, or the default if the field is set to an invalid enum value.
    pub fn state(&self) -> (value: NeuronState)
        ensures
            value == NeuronState::from_i32_or_default(self.state),
    {
        match NeuronState::from_i32(self.state) {
            Some(value) => value,
            None => NeuronState::default(),
        }
    }

    /// Sets `state` to the provided enum value.
    pub fn set_state(&mut self, value: NeuronState)
        ensures
            *final(self) == (NeuronInfo { state: value.spec_value(), ..*old(self) }),
    {
        self.state = i32::from(value);
    }

    /// `state` gives back the value that `set_state` set.
    pub proof fn lemma_state_after_set_state(self, value: NeuronState)
        ensures
            NeuronState::from_i32_or_default((NeuronInfo { state: value.spec_value(), ..self }).state) == value,
    {
        value.lemma_value_round_trip();
    }

    /// Returns the value of `joined_community_fund_timestamp_seconds`, or the default value if `joined_community_fund_timestamp_seconds` is unset.
    pub fn joined_community_fund_timestamp_seconds(&self) -> (value: u64)
        ensures
            value == (match self.joined_community_fund_timestamp_seconds {
                Some(field) => field,
                None => 0,
            }),
    {
        match self.joined_community_fund_timestamp_seconds {
            Some(field) => field,
            None => 0,
        }
    }
}

/// A transfer performed from some account to stake a new neuron.
#[derive(Debug, PartialEq, Default)]
pub struct NeuronStakeTransfer {
    /// When the transfer arrived at the governance canister.
    pub transfer_timestamp: u64,
    /// The principal that made the transfer.
    pub from: Option<crate::ids::PrincipalId>,
    /// The (optional) subaccount from which the transfer was made.
    pub from_subaccount: Vec<u8>,
    /// The subaccount to which the transfer was made.
    pub to_subaccount: Vec<u8>,
    /// The amount of stake that was transferred.
    pub neuron_stake_e8s: u64,
    /// The block height at which the transfer occurred.
    pub block_height: u64,
    /// The memo sent with the transfer.
    pub memo: u64,
}

impl Clone for NeuronStakeTransfer {
    fn clone(&self) -> (cloned: Self)
        ensures
            cloned.same_content(self),
    {
        NeuronStakeTransfer {
            transfer_timestamp: self.transfer_timestamp,
            from: self.from.clone(),
            from_subaccount: self.from_subaccount.clone(),
            to_subaccount: self.to_subaccount.clone(),
            neuron_stake_e8s: self.neuron_stake_e8s,
            block_height: self.block_height,
            memo: self.memo,
        }
    }
}

impl SameContent for NeuronStakeTransfer {
    open spec fn same_content(&self, other: &Self) -> bool {
        &&& self.transfer_timestamp.same_content(&other.transfer_timestamp)
        &&& self.from.same_content(&other.from)
        &&& self.from_subaccount.same_content(&other.from_subaccount)
        &&& self.to_subaccount.same_content(&other.to_subaccount)
        &&& self.neuron_stake_e8s.same_content(&other.neuron_stake_e8s)
        &&& self.block_height.same_content(&other.block_height)
        &&& self.memo.same_content(&other.memo)
    }
}

/// This structure represents a neuron "at rest" in governance system of
/// the Internet Computer IC.
#[derive(Debug, PartialEq, Default)]
pub struct Neuron {
    /// The id of the neuron.
    ///
    /// This is stored here temporarily, since its also stored on the map
    /// that contains neurons.
    ///
    /// Initialization uses ids for the following graph. We need neurons
    /// to come into existence at genesis with pre-chosen ids, so a
    /// neuron needs to have an id. We could alternatively choose a
    /// unique naming scheme instead and chose the ids on the
    /// initialization of the canister.
    pub id: Option<crate::ids::NeuronId>,
    /// The principal of the ICP ledger account where the locked ICP
    /// balance resides. This principal is indistinguishable from one
    /// identifying a public key pair, such that those browsing the ICP
    /// ledger cannot tell which balances belong to neurons.
    pub account: Vec<u8>,
    /// The principal that actually controls the neuron. The principal
    /// must identify a public key pair, which acts as a “master key”,
    /// such that the corresponding secret key should be kept very
    /// secure. The principal may control many neurons.
    pub controller: Option<crate::ids::PrincipalId>,
    /// Keys that can be used to perform actions with limited privileges
    /// without exposing the secret key corresponding to the principal
    /// e.g. could be a WebAuthn key.
    pub hot_keys: Vec<crate::ids::PrincipalId>,
    /// The amount of staked ICP tokens, measured in fractions of 10E-8
    /// of an ICP.
    ///
    /// Cached record of the locked ICP balance on the ICP ledger.
    ///
    /// For neuron creation: has to contain some minimum amount. A
    /// spawned neuron with less stake cannot increase its dissolve
    /// delay.
    pub cached_neuron_stake_e8s: u64,
    /// The amount of ICP that this neuron has forfeited due to making
    /// proposals that were subsequently rejected or from using the
    /// 'manage neurons through proposals' functionality. Must be smaller
    /// than 'neuron_stake_e8s'. When a neuron is disbursed, these ICP
    /// will be burned.
    pub neuron_fees_e8s: u64,
    /// When the Neuron was created. A neuron can only vote on proposals
    /// submitted after its creation date.
    pub created_timestamp_seconds: u64,
    /// The timestamp, in seconds from the Unix epoch, corresponding to
    /// the time this neuron has started aging. This is either the
    /// creation time or the last time at which the neuron has stopped
    /// dissolving.
    ///
    /// This value is meaningless when the neuron is dissolving, since a
    /// dissolving neurons always has age zero. The canonical value of
    /// this field for a dissolving neuron is `u64::MAX`.
    pub aging_since_timestamp_seconds: u64,
    /// The timestamp, in seconds from the Unix epoch, at which this
    /// neuron should be spawned and its maturity converted to ICP
    /// according to <https://wiki.internetcomputer.org/wiki/Maturity_modulation.>
    pub spawn_at_timestamp_seconds: Option<u64>,
    /// Map `Topic` to followees. The key is represented by an integer as
    /// Protobuf does not support enum keys in maps.
    pub followees: HashMap<i32, neuron::Followees>,
    /// Information about how this neuron voted in the recent past. It
    /// only contains proposals that the neuron voted yes or no on.
    pub recent_ballots: Vec<BallotInfo>,
    /// `true` if this neuron has passed KYC, `false` otherwise
    pub kyc_verified: bool,
    /// The record of the transfer that was made to create this neuron.
    pub transfer: Option<NeuronStakeTransfer>,
    /// The accumulated unstaked maturity of the neuron, in "e8s equivalent".
    ///
    /// The unit is "e8s equivalent" to insist that, while this quantity is on
    /// the same scale as ICPs, maturity is not directly convertible to ICPs:
    /// conversion requires a minting event and the conversion rate is variable.
    pub maturity_e8s_equivalent: u64,
    /// The accumulated staked maturity of the neuron, in "e8s equivalent" (see
    /// "maturity_e8s_equivalent"). Staked maturity becomes regular maturity once
    /// the neuron is dissolved.
    ///
    /// Contrary to `maturity_e8s_equivalent` this maturity is staked and thus
    /// locked until the neuron is dissolved and contributes to voting power
    /// and rewards. Once the neuron is dissolved, this maturity will be "moved"
    /// to 'maturity_e8s_equivalent' and will be able to be spawned (with maturity
    /// modulation).
    pub staked_maturity_e8s_equivalent: Option<u64>,
    /// If set and true the maturity rewarded to this neuron for voting will be
    /// automatically staked and will contribute to the neuron's voting power.
    pub auto_stake_maturity: Option<bool>,
    /// Whether this neuron is "Not for profit", making it dissolvable
    /// by voting.
    pub not_for_profit: bool,
    /// If set, this neuron is a member of the Community Fund. This means that when
    /// a proposal to open an SNS token swap is executed, maturity from this neuron
    /// will be used to participate in the SNS token swap.
    pub joined_community_fund_timestamp_seconds: Option<u64>,
    /// If set, the neuron belongs to the "known neurons". It has been given a name and maybe a description.
    pub known_neuron_data: Option<KnownNeuronData>,
    /// At any time, at most one of `when_dissolved` and
    /// `dissolve_delay` are specified.
    ///
    /// `NotDissolving`. This is represented by `dissolve_delay` being
    /// set to a non zero value.
    ///
    /// `Dissolving`. This is represented by `when_dissolved` being
    /// set, and this value is in the future.
    ///
    /// `Dissolved`. All other states represent the dissolved
    /// state. That is, (a) `when_dissolved` is set and in the past,
    /// (b) `dissolve_delay` is set to zero, (c) neither value is set.
    ///
    /// Cf. \[Neuron::stop_dissolving\] and \[Neuron::start_dissolving\].
    pub dissolve_state: Option<neuron::DissolveState>,
}

impl Clone for Neuron {
    fn clone(&self) -> (cloned: Self)
        ensures
            cloned.same_content(self),
    {
        Neuron {
            id: self.id.clone(),
            account: self.account.clone(),
            controller: self.controller.clone(),
            hot_keys: self.hot_keys.clone(),
            cached_neuron_stake_e8s: self.cached_neuron_stake_e8s,
            neuron_fees_e8s: self.neuron_fees_e8s,
            created_timestamp_seconds: self.created_timestamp_seconds,
            aging_since_timestamp_seconds: self.aging_since_timestamp_seconds,
            spawn_at_timestamp_seconds: self.spawn_at_timestamp_seconds.clone(),
            followees: self.followees.clone(),
            recent_ballots: self.recent_ballots.clone(),
            kyc_verified: self.kyc_verified,
            transfer: self.transfer.clone(),
            maturity_e8s_equivalent: self.maturity_e8s_equivalent,
            staked_maturity_e8s_equivalent: self.staked_maturity_e8s_equivalent.clone(),
            auto_stake_maturity: self.auto_stake_maturity.clone(),
            not_for_profit: self.not_for_profit,
            joined_community_fund_timestamp_seconds: self.joined_community_fund_timestamp_seconds.clone(),
            known_neuron_data: self.known_neuron_data.clone(),
            dissolve_state: self.dissolve_state.clone(),
        }
    }
}

impl SameContent for Neuron {
    open spec fn same_content(&self, other: &Self) -> bool {
        &&& self.id.same_content(&other.id)
        &&& self.account.same_content(&other.account)
        &&& self.controller.same_content(&other.controller)
        &&& self.hot_keys.same_content(&other.hot_keys)
        &&& self.cached_neuron_stake_e8s.same_content(&other.cached_neuron_stake_e8s)
        &&& self.neuron_fees_e8s.same_content(&other.neuron_fees_e8s)
        &&& self.created_timestamp_seconds.same_content(&other.created_timestamp_seconds)
        &&& self.aging_since_timestamp_seconds.same_content(&other.aging_since_timestamp_seconds)
        &&& self.spawn_at_timestamp_seconds.same_content(&other.spawn_at_timestamp_seconds)
        &&& self.followees.same_content(&other.followees)
        &&& self.recent_ballots.same_content(&other.recent_ballots)
        &&& self.kyc_verified.same_content(&other.kyc_verified)
        &&& self.transfer.same_content(&other.transfer)
        &&& self.maturity_e8s_equivalent.same_content(&other.maturity_e8s_equivalent)
        &&& self.staked_maturity_e8s_equivalent.same_content(&other.staked_maturity_e8s_equivalent)
        &&& self.auto_stake_maturity.same_content(&other.auto_stake_maturity)
        &&& self.not_for_profit.same_content(&other.not_for_profit)
        &&& self.joined_community_fund_timestamp_seconds.same_content(&other.joined_community_fund_timestamp_seconds)
        &&& self.known_neuron_data.same_content(&other.known_neuron_data)
        &&& self.dissolve_state.same_content(&other.dissolve_state)
    }
}

impl Neuron {
    /// Returns the value of `spawn_at_timestamp_seconds`, or the default value if `spawn_at_timestamp_seconds` is unset.
    pub fn spawn_at_timestamp_seconds(&self) -> (value: u64)
        ensures
            value == (match self.spawn_at_timestamp_seconds {
                Some(field) => field,
                None => 0,
            }),
    {
        match self.spawn_at_timestamp_seconds {
            Some(field) => field,
            None => 0,
        }
    }

    /// Returns the value of `staked_maturity_e8s_equivalent`, or the default value if `staked_maturity_e8s_equivalent` is unset.
    pub fn staked_maturity_e8s_equivalent(&self) -> (value: u64)
        ensures
            value == (match self.staked_maturity_e8s_equivalent {
                Some(field) => field,
                None => 0,
            }),
    {
        match self.staked_maturity_e8s_equivalent {
            Some(field) => field,
            None => 0,
        }
    }

    /// Returns the value of `auto_stake_maturity`, or the default value if `auto_stake_maturity` is unset.
    pub fn auto_stake_maturity(&self) -> (value: bool)
        ensures
            value == (match self.auto_stake_maturity {
                Some(field) => field,
                None => false,
            }),
    {
        match self.auto_stake_maturity {
            Some(field) => field,
            None => false,
        }
    }

    /// Returns the value of `joined_community_fund_timestamp_seconds`, or the default value if `joined_community_fund_timestamp_seconds` is unset.
    pub fn joined_community_fund_timestamp_seconds(&self) -> (value: u64)
        ensures
            value == (match self.joined_community_fund_timestamp_seconds {
                Some(field) => field,
                None => 0,
            }),
    {
        match self.joined_community_fund_timestamp_seconds {
            Some(field) => field,
            None => 0,
        }
    }
}

/// Payload of a proposal that calls a function on another NNS
/// canister. The canister and function to call is derived from the
/// `nns_function`.
#[derive(Debug, PartialEq, Default)]
pub struct ExecuteNnsFunction {
    /// This enum value determines what canister to call and what NNS
    /// function to call on that canister.
    pub nns_function: i32,
    /// The payload of the NNS function.
    pub payload: Vec<u8>,
}

impl Clone for ExecuteNnsFunction {
    fn clone(&self) -> (cloned: Self)
        ensures
            cloned.same_content(self),
    {
        ExecuteNnsFunction {
            nns_function: self.nns_function,
            payload: self.payload.clone(),
        }
    }
}

impl SameContent for ExecuteNnsFunction {
    open spec fn same_content(&self, other: &Self) -> bool {
        &&& self.nns_function.same_content(&other.nns_function)
        &&& self.payload.same_content(&other.payload)
    }
}

impl ExecuteNnsFunction {
    /// Returns the enum value of `nns_function`, or the default if the field is set to an invalid enum value.
    pub fn nns_function(&self) -> (value: NnsFunction)
        ensures
            value == NnsFunction::from_i32_or_default(self.nns_function),
    {
        match NnsFunction::from_i32(self.nns_function) {
            Some(value) => value,
            None => NnsFunction::default(),
        }
    }

    /// Sets `nns_function` to the provided enum value.
    pub fn set_nns_function(&mut self, value: NnsFunction)
        ensures
            *final(self) == (ExecuteNnsFunction { nns_function: value.spec_value(), ..*old(self) }),
    {
        self.nns_function = i32::from(value);
    }

    /// `nns_function` gives back the value that `set_nns_function` set.
    pub proof fn lemma_nns_function_after_set_nns_function(self, value: NnsFunction)
        ensures
            NnsFunction::from_i32_or_default((ExecuteNnsFunction { nns_function: value.spec_value(), ..self }).nns_function) == value,
    {
        value.lemma_value_round_trip();
    }
}

/// If adopted, a motion should guide the future strategy of the
/// Internet Computer ecosystem.
#[derive(Debug, PartialEq, Default)]
pub struct Motion {
    /// The text of the motion. Maximum 100kib.
    pub motion_text: String,
}

impl Clone for Motion {
    fn clone(&self) -> (cloned: Self)
        ensures
            cloned.same_content(self),
    {
        Motion {
            motion_text: self.motion_text.clone(),
        }
    }
}

impl SameContent for Motion {
    open spec fn same_content(&self, other: &Self) -> bool {
        &&& self.motion_text.same_content(&other.motion_text)
    }
}

/// For all Neurons controlled by the given principals, set their
/// KYC status to `kyc_verified=true`.
#[derive(Debug, PartialEq, Default)]
pub struct ApproveGenesisKyc {
    pub principals: Vec<crate::ids::PrincipalId>,
}

impl Clone for ApproveGenesisKyc {
    fn clone(&self) -> (cloned: Self)
        ensures
            cloned.same_content(self),
    {
        ApproveGenesisKyc {
            principals: self.principals.clone(),
        }
    }
}

impl SameContent for ApproveGenesisKyc {
    open spec fn same_content(&self, other: &Self) -> bool {
        &&& self.principals.same_content(&other.principals)
    }
}

/// Adds and/or removes NodeProviders from the list of current
/// node providers.
#[derive(Debug, PartialEq, Default)]
pub struct AddOrRemoveNodeProvider {
    pub change: Option<add_or_remove_node_provider::Change>,
}

impl Clone for AddOrRemoveNodeProvider {
    fn clone(&self) -> (cloned: Self)
        ensures
            cloned.same_content(self),
    {
        AddOrRemoveNodeProvider {
            change: self.change.clone(),
        }
    }
}

impl SameContent for AddOrRemoveNodeProvider {
    open spec fn same_content(&self, other: &Self) -> bool {
        &&& self.change.same_content(&other.change)
    }
}

/// This proposal payload is used to reward a node provider by minting
/// ICPs directly to the node provider's ledger account, or into a new
/// neuron created on behalf of the node provider.
#[derive(Debug, PartialEq, Default)]
pub struct RewardNodeProvider {
    /// The NodeProvider to reward.
    pub node_provider: Option<NodeProvider>,
    /// The amount of e8s to mint to reward the node provider.
    pub amount_e8s: u64,
    pub reward_mode: Option<reward_node_provider::RewardMode>,
}

impl Clone for RewardNodeProvider {
    fn clone(&self) -> (cloned: Self)
        ensures
            cloned.same_content(self),
    {
        RewardNodeProvider {
            node_provider: self.node_provider.clone(),
            amount_e8s: self.amount_e8s,
            reward_mode: self.reward_mode.clone(),
        }
    }
}

impl SameContent for RewardNodeProvider {
    open spec fn same_content(&self, other: &Self) -> bool {
        &&& self.node_provider.same_content(&other.node_provider)
        &&& self.amount_e8s.same_content(&other.amount_e8s)
        &&& self.reward_mode.same_content(&other.reward_mode)
    }
}

#[derive(Debug, PartialEq, Default)]
pub struct RewardNodeProviders {
    pub rewards: Vec<RewardNodeProvider>,
    /// If true, reward Node Providers with the rewards returned by the Registry's
    /// get_node_providers_monthly_xdr_rewards method
    pub use_registry_derived_rewards: Option<bool>,
}

impl Clone for RewardNodeProviders {
    fn clone(&self) -> (cloned: Self)
        ensures
            cloned.same_content(self),
    {
        RewardNodeProviders {
            rewards: self.rewards.clone(),
            use_registry_derived_rewards: self.use_registry_derived_rewards.clone(),
        }
    }
}

impl SameContent for RewardNodeProviders {
    open spec fn same_content(&self, other: &Self) -> bool {
        &&& self.rewards.same_content(&other.rewards)
        &&& self.use_registry_derived_rewards.same_content(&other.use_registry_derived_rewards)
    }
}

impl RewardNodeProviders {
    /// Returns the value of `use_registry_derived_rewards`, or the default value if `use_registry_derived_rewards` is unset.
    pub fn use_registry_derived_rewards(&self) -> (value: bool)
        ensures
            value == (match self.use_registry_derived_rewards {
                Some(field) => field,
                None => false,
            }),
    {
        match self.use_registry_derived_rewards {
            Some(field) => field,
            None => false,
        }
    }
}

/// Changes the default followees to match the one provided.
/// This completely replaces the default followees so entries for all
/// Topics (except ManageNeuron) must be provided on each proposal.
#[derive(Debug, PartialEq, Default)]
pub struct SetDefaultFollowees {
    pub default_followees: HashMap<i32, neuron::Followees>,
}

impl Clone for SetDefaultFollowees {
    fn clone(&self) -> (cloned: Self)
        ensures
            cloned.same_content(self),
    {
        SetDefaultFollowees {
            default_followees: self.default_followees.clone(),
        }
    }
}

impl SameContent for SetDefaultFollowees {
    open spec fn same_content(&self, other: &Self) -> bool {
        &&& self.default_followees.same_content(&other.default_followees)
    }
}

/// Obsolete. Superceded by OpenSnsTokenSwap.
#[derive(Debug, PartialEq, Default)]
pub struct SetSnsTokenSwapOpenTimeWindow {
    /// The swap canister to send the request to.
    pub swap_canister_id: Option<crate::ids::PrincipalId>,
    /// Arguments that get sent to the swap canister when its set_open_time_window
    /// Candid method is called.
    pub request: Option<crate::sns_swap::SetOpenTimeWindowRequest>,
}

impl Clone for SetSnsTokenSwapOpenTimeWindow {
    fn clone(&self) -> (cloned: Self)
        ensures
            cloned.same_content(self),
    {
        SetSnsTokenSwapOpenTimeWindow {
            swap_canister_id: self.swap_canister_id.clone(),
            request: self.request.clone(),
        }
    }
}

impl SameContent for SetSnsTokenSwapOpenTimeWindow {
    open spec fn same_content(&self, other: &Self) -> bool {
        &&& self.swap_canister_id.same_content(&other.swap_canister_id)
        &&& self.request.same_content(&other.request)
    }
}

/// A proposal is the immutable input of a proposal submission. This contains
/// all the information from the original proposal submission.
///
/// Making a proposal implicitly votes yes.
#[derive(Debug, PartialEq, Default)]
pub struct Proposal {
    /// Must be present (enforced at the application layer, not by PB).
    /// A brief description of what the proposal does.
    /// Size in bytes must be in the interval [5, 256].
    pub title: Option<String>,
    /// Text providing a short description of the proposal, composed
    /// using a maximum of 15000 bytes of characters.
    pub summary: String,
    /// The Web address of additional content required to evaluate the
    /// proposal, specified using HTTPS. For example, the address might
    /// describe content supporting the assignment of a DCID (data center
    /// id) to a new data center. The URL string must not be longer than
    /// 2000 bytes.
    pub url: String,
    /// This section describes the action that the proposal proposes to
    /// take.
    pub action: Option<proposal::Action>,
}

impl Clone for Proposal {
    fn clone(&self) -> (cloned: Self)
        ensures
            cloned.title == self.title,
            cloned.summary == self.summary,
            cloned.url == self.url,
            cloned.action is Some <==> self.action is Some,
            cloned.action matches Some(copy) ==> self.action->0.same_variant(copy),
            cloned.same_content(self),
        decreases self,
    {
        Proposal {
            title: self.title.clone(),
            summary: self.summary.clone(),
            url: self.url.clone(),
            action: match &self.action {
                Some(action) => Some(action.clone()),
                None => None,
            },
        }
    }
}

impl SameContent for Proposal {
    open spec fn same_content(&self, other: &Self) -> bool
        decreases self,
    {
        &&& self.title.same_content(&other.title)
        &&& self.summary.same_content(&other.summary)
        &&& self.url.same_content(&other.url)
        &&& match (self.action, other.action) {
            (None, None) => true,
            (Some(a), Some(b)) => a.same_content(&b),
            _ => false,
        }
    }
}

impl Proposal {
    /// Returns the value of `title`, or the default value if `title` is unset.
    pub fn title(&self) -> (value: &str)
        ensures
            value@ == (match self.title {
                Some(text) => text@,
                None => Seq::empty(),
            }),
    {
        proof {
            reveal_strlit("");
        }
        match &self.title {
            Some(text) => text.as_str(),
            None => "",
        }
    }
}

/// Empty message to use in oneof fields that represent empty
/// enums.
#[derive(Debug, PartialEq, Default)]
pub struct Empty {}

impl Clone for Empty {
    fn clone(&self) -> (cloned: Self)
        ensures
            cloned.same_content(self),
    {
        Empty {}
    }
}

impl SameContent for Empty {
    open spec fn same_content(&self, other: &Self) -> bool {
        true
    }
}

/// All operations that modify the state of an existing neuron are
/// represented by instances of `ManageNeuron`.
///
/// All commands are available to the `controller` of the neuron. In
/// addition, commands related to voting, i.g., \[manage_neuron::Follow\]
/// and \[manage_neuron::RegisterVote\], are also available to the
/// registered hot keys of the neuron.
#[derive(Debug, PartialEq, Default)]
pub struct ManageNeuron {
    /// This is the legacy way to specify neuron IDs that is now discouraged.
    pub id: Option<crate::ids::NeuronId>,
    /// The ID of the neuron to manage. This can either be a subaccount or a neuron ID.
    pub neuron_id_or_subaccount: Option<manage_neuron::NeuronIdOrSubaccount>,
    pub command: Option<manage_neuron::Command>,
}

impl Clone for ManageNeuron {
    fn clone(&self) -> (cloned: Self)
        ensures
            cloned.id == self.id,
            cloned.neuron_id_or_subaccount is Some <==> self.neuron_id_or_subaccount is Some,
            cloned.command is Some <==> self.command is Some,
            cloned.command matches Some(copy) ==> self.command->0.same_variant(copy),
            cloned.same_content(self),
        decreases self,
    {
        ManageNeuron {
            id: self.id.clone(),
            neuron_id_or_subaccount: self.neuron_id_or_subaccount.clone(),
            command: match &self.command {
                Some(command) => Some(command.clone()),
                None => None,
            },
        }
    }
}

impl SameContent for ManageNeuron {
    open spec fn same_content(&self, other: &Self) -> bool
        decreases self,
    {
        &&& self.id.same_content(&other.id)
        &&& self.neuron_id_or_subaccount.same_content(&other.neuron_id_or_subaccount)
        &&& match (self.command, other.command) {
            (None, None) => true,
            (Some(a), Some(b)) => a.same_content(&b),
            _ => false,
        }
    }
}

/// The response of the ManageNeuron command
///
/// There is a dedicated response type for each `ManageNeuron.command` field
#[derive(Debug, PartialEq, Default)]
pub struct ManageNeuronResponse {
    pub command: Option<manage_neuron_response::Command>,
}

impl Clone for ManageNeuronResponse {
    fn clone(&self) -> (cloned: Self)
        ensures
            cloned.same_content(self),
    {
        ManageNeuronResponse {
            command: self.command.clone(),
        }
    }
}

impl SameContent for ManageNeuronResponse {
    open spec fn same_content(&self, other: &Self) -> bool {
        &&& self.command.same_content(&other.command)
    }
}

#[derive(Debug, PartialEq, Default)]
pub struct GovernanceError {
    pub error_type: i32,
    pub error_message: String,
}

impl Clone for GovernanceError {
    fn clone(&self) -> (cloned: Self)
        ensures
            cloned.same_content(self),
    {
        GovernanceError {
            error_type: self.error_type,
            error_message: self.error_message.clone(),
        }
    }
}

impl SameContent for GovernanceError {
    open spec fn same_content(&self, other: &Self) -> bool {
        &&& self.error_type.same_content(&other.error_type)
        &&& self.error_message.same_content(&other.error_message)
    }
}

impl GovernanceError {
    /// Returns the enum value of `error_type`, or the default if the field is set to an invalid enum value.
    pub fn error_type(&self) -> (value: governance_error::ErrorType)
        ensures
            value == governance_error::ErrorType::from_i32_or_default(self.error_type),
    {
        match governance_error::ErrorType::from_i32(self.error_type) {
            Some(value) => value,
            None => governance_error::ErrorType::default(),
        }
    }

    /// Sets `error_type` to the provided enum value.
    pub fn set_error_type(&mut self, value: governance_error::ErrorType)
        ensures
            *final(self) == (GovernanceError { error_type: value.spec_value(), ..*old(self) }),
    {
        self.error_type = i32::from(value);
    }

    /// `error_type` gives back the value that `set_error_type` set.
    pub proof fn lemma_error_type_after_set_error_type(self, value: governance_error::ErrorType)
        ensures
            governance_error::ErrorType::from_i32_or_default((GovernanceError { error_type: value.spec_value(), ..self }).error_type) == value,
    {
        value.lemma_value_round_trip();
    }
}

#[derive(Debug, PartialEq, Default)]
pub struct Ballot {
    pub vote: i32,
    pub voting_power: u64,
}

impl Clone for Ballot {
    fn clone(&self) -> (cloned: Self)
        ensures
            cloned.same_content(self),
    {
        Ballot {
            vote: self.vote,
            voting_power: self.voting_power,
        }
    }
}

impl SameContent for Ballot {
    open spec fn same_content(&self, other: &Self) -> bool {
        &&& self.vote.same_content(&other.vote)
        &&& self.voting_power.same_content(&other.voting_power)
    }
}

impl Ballot {
    /// Returns the enum value of `vote`, or the default if the field is set to an invalid enum value.
    pub fn vote(&self) -> (value: Vote)
        ensures
            value == Vote::from_i32_or_default(self.vote),
    {
        match Vote::from_i32(self.vote) {
            Some(value) => value,
            None => Vote::default(),
        }
    }

    /// Sets `vote` to the provided enum value.
    pub fn set_vote(&mut self, value: Vote)
        ensures
            *final(self) == (Ballot { vote: value.spec_value(), ..*old(self) }),
    {
        self.vote = i32::from(value);
    }

    /// `vote` gives back the value that `set_vote` set.
    pub proof fn lemma_vote_after_set_vote(self, value: Vote)
        ensures
            Vote::from_i32_or_default((Ballot { vote: value.spec_value(), ..self }).vote) == value,
    {
        value.lemma_value_round_trip();
    }
}

/// A tally of votes.
#[derive(Debug, PartialEq, Default)]
pub struct Tally {
    /// When was this tally made
    pub timestamp_seconds: u64,
    /// Yeses, in voting power unit.
    pub yes: u64,
    /// Noes, in voting power unit.
    pub no: u64,
    /// Total voting power unit of eligible neurons.
    /// Should always be greater than or equal to yes + no.
    pub total: u64,
}

impl Clone for Tally {
    fn clone(&self) -> (cloned: Self)
        ensures
            cloned.same_content(self),
    {
        Tally {
            timestamp_seconds: self.timestamp_seconds,
            yes: self.yes,
            no: self.no,
            total: self.total,
        }
    }
}

impl SameContent for Tally {
    open spec fn same_content(&self, other: &Self) -> bool {
        &&& self.timestamp_seconds.same_content(&other.timestamp_seconds)
        &&& self.yes.same_content(&other.yes)
        &&& self.no.same_content(&other.no)
        &&& self.total.same_content(&other.total)
    }
}

/// A ProposalData contains everything related to an open proposal:
/// the proposal itself (immutable), as well as mutable data such as
/// ballots.
#[derive(Debug, PartialEq, Default)]
pub struct ProposalData {
    /// This is stored here temporarily. It is also stored on the map
    /// that contains proposals.
    ///
    /// Immutable: The unique id for this proposal.
    pub id: Option<crate::ids::ProposalId>,
    /// Immutable: The ID of the neuron that made this proposal.
    pub proposer: Option<crate::ids::NeuronId>,
    /// Immutable: The amount of ICP in E8s to be charged to the proposer if the
    /// proposal is rejected.
    pub reject_cost_e8s: u64,
    /// Immutable: The proposal originally submitted.
    pub proposal: Option<Proposal>,
    /// Immutable: The timestamp, in seconds from the Unix epoch, when this proposal
    /// was made.
    pub proposal_timestamp_seconds: u64,
    /// Map neuron ID to to the neuron's vote and voting power. Only
    /// present for as long as the proposal is not yet settled with
    /// respect to rewards.
    pub ballots: HashMap<u64, Ballot>,
    /// Latest tally. Recomputed for every vote. Even after the proposal has been
    /// decided, the latest_tally will still be updated based on the recent vote,
    /// until the voting deadline.
    pub latest_tally: Option<Tally>,
    /// If specified: the timestamp when this proposal was adopted or
    /// rejected. If not specified, this proposal is still 'open'.
    pub decided_timestamp_seconds: u64,
    /// When an adopted proposal has been executed, this is set to
    /// current timestamp.
    pub executed_timestamp_seconds: u64,
    /// When an adopted proposal has failed to be executed, this is set
    /// to the current timestamp.
    pub failed_timestamp_seconds: u64,
    /// When an adopted proposal has failed to executed, this is set the
    /// reason for the failure.
    pub failure_reason: Option<GovernanceError>,
    /// The reward event round at which rewards for votes on this proposal
    /// was distributed.
    ///
    /// Rounds do not have to be consecutive.
    ///
    /// Rounds start at one: a value of zero indicates that
    /// no reward event taking this proposal into consideration happened yet.
    ///
    /// This field matches field day_after_genesis in RewardEvent.
    pub reward_event_round: u64,
    /// Wait-for-quiet state that needs to be saved in stable memory.
    pub wait_for_quiet_state: Option<WaitForQuietState>,
    // SNS Token Swap-related fields
    // -----------------------------
    /// This is populated when an OpenSnsTokenSwap proposal is first made.
    pub original_total_community_fund_maturity_e8s_equivalent: Option<u64>,
    /// This is populated when OpenSnsTokenSwap is executed. It is used when our
    /// conclude_community_fund_participation Candid method is called to either
    /// mint ICP, or restore CF neuron maturity.
    pub cf_participants: Vec<crate::sns_swap::CfParticipant>,
    /// This gets set to one of the terminal values (i.e. Committed or Aborted)
    /// when the swap canister calls our conclude_community_fund_participation
    /// Candid method. Initially, it is set to Open, because swap is supposed to
    /// enter that state when we call its open Candid method, which is the main
    /// operation in the execution of an OpenSnsTokenSwap proposal.
    pub sns_token_swap_lifecycle: Option<i32>,
    pub derived_proposal_information: Option<DerivedProposalInformation>,
}

impl Clone for ProposalData {
    fn clone(&self) -> (cloned: Self)
        ensures
            cloned.same_content(self),
    {
        ProposalData {
            id: self.id.clone(),
            proposer: self.proposer.clone(),
            reject_cost_e8s: self.reject_cost_e8s,
            proposal: match &self.proposal {
                Some(proposal) => Some(proposal.clone()),
                None => None,
            },
            proposal_timestamp_seconds: self.proposal_timestamp_seconds,
            ballots: self.ballots.clone(),
            latest_tally: self.latest_tally.clone(),
            decided_timestamp_seconds: self.decided_timestamp_seconds,
            executed_timestamp_seconds: self.executed_timestamp_seconds,
            failed_timestamp_seconds: self.failed_timestamp_seconds,
            failure_reason: self.failure_reason.clone(),
            reward_event_round: self.reward_event_round,
            wait_for_quiet_state: self.wait_for_quiet_state.clone(),
            original_total_community_fund_maturity_e8s_equivalent: self.original_total_community_fund_maturity_e8s_equivalent.clone(),
            cf_participants: self.cf_participants.clone(),
            sns_token_swap_lifecycle: self.sns_token_swap_lifecycle.clone(),
            derived_proposal_information: self.derived_proposal_information.clone(),
        }
    }
}

impl SameContent for ProposalData {
    open spec fn same_content(&self, other: &Self) -> bool {
        &&& self.id.same_content(&other.id)
        &&& self.proposer.same_content(&other.proposer)
        &&& self.reject_cost_e8s.same_content(&other.reject_cost_e8s)
        &&& self.proposal.same_content(&other.proposal)
        &&& self.proposal_timestamp_seconds.same_content(&other.proposal_timestamp_seconds)
        &&& self.ballots.same_content(&other.ballots)
        &&& self.latest_tally.same_content(&other.latest_tally)
        &&& self.decided_timestamp_seconds.same_content(&other.decided_timestamp_seconds)
        &&& self.executed_timestamp_seconds.same_content(&other.executed_timestamp_seconds)
        &&& self.failed_timestamp_seconds.same_content(&other.failed_timestamp_seconds)
        &&& self.failure_reason.same_content(&other.failure_reason)
        &&& self.reward_event_round.same_content(&other.reward_event_round)
        &&& self.wait_for_quiet_state.same_content(&other.wait_for_quiet_state)
        &&& self.original_total_community_fund_maturity_e8s_equivalent.same_content(&other.original_total_community_fund_maturity_e8s_equivalent)
        &&& self.cf_participants.same_content(&other.cf_participants)
        &&& self.sns_token_swap_lifecycle.same_content(&other.sns_token_swap_lifecycle)
        &&& self.derived_proposal_information.same_content(&other.derived_proposal_information)
    }
}

impl ProposalData {
    /// Returns the value of `original_total_community_fund_maturity_e8s_equivalent`, or the default value if `original_total_community_fund_maturity_e8s_equivalent` is unset.
    pub fn original_total_community_fund_maturity_e8s_equivalent(&self) -> (value: u64)
        ensures
            value == (match self.original_total_community_fund_maturity_e8s_equivalent {
                Some(field) => field,
                None => 0,
            }),
    {
        match self.original_total_community_fund_maturity_e8s_equivalent {
            Some(field) => field,
            None => 0,
        }
    }
}

/// This message has a couple of unusual features.
///
/// 1. There is (currently) only one field. We expect that more fields will be
///     (and possibly other clients) to be able to handle this information in a
///     generic way, i.e. without having to change their code.
///
/// 2. Fields that might be added later will probably be mutually exclusive with
///     existing fields. Normally, this would be handled by putting all such
///     fields into a oneof. However, Candid has a bug where variant is not
///     handled correctly. Therefore, we refrain from using oneof until we believe
///     that the fix is very imminent.
#[derive(Debug, PartialEq, Default)]
pub struct DerivedProposalInformation {
    pub swap_background_information: Option<SwapBackgroundInformation>,
}

impl Clone for DerivedProposalInformation {
    fn clone(&self) -> (cloned: Self)
        ensures
            cloned.same_content(self),
    {
        DerivedProposalInformation {
            swap_background_information: self.swap_background_information.clone(),
        }
    }
}

impl SameContent for DerivedProposalInformation {
    open spec fn same_content(&self, other: &Self) -> bool {
        &&& self.swap_background_information.same_content(&other.swap_background_information)
    }
}

/// Additional information about the SNS that's being "swapped".
///
/// This data is fetched from other canisters. Currently, the swap canister
/// itself, and the root canister are queried, but additional canisters could be
/// queried later. In particular, the ID of the root canister is discovered via
/// the swap canister.
///
/// (See Governance::fetch_swap_background_information for how this is compiled.)
#[derive(Debug, PartialEq, Default)]
pub struct SwapBackgroundInformation {
    // In case swap fails/aborts.
    pub fallback_controller_principal_ids: Vec<crate::ids::PrincipalId>,
    // Primary Canisters
    pub root_canister_summary: Option<swap_background_information::CanisterSummary>,
    pub governance_canister_summary: Option<swap_background_information::CanisterSummary>,
    pub ledger_canister_summary: Option<swap_background_information::CanisterSummary>,
    pub swap_canister_summary: Option<swap_background_information::CanisterSummary>,
    // Secondary Canisters
    pub ledger_archive_canister_summaries: Vec<swap_background_information::CanisterSummary>,
    pub ledger_index_canister_summary: Option<swap_background_information::CanisterSummary>,
    // Non-SNS Canister(s)
    pub dapp_canister_summaries: Vec<swap_background_information::CanisterSummary>,
}

impl Clone for SwapBackgroundInformation {
    fn clone(&self) -> (cloned: Self)
        ensures
            cloned.same_content(self),
    {
        SwapBackgroundInformation {
            fallback_controller_principal_ids: self.fallback_controller_principal_ids.clone(),
            root_canister_summary: self.root_canister_summary.clone(),
            governance_canister_summary: self.governance_canister_summary.clone(),
            ledger_canister_summary: self.ledger_canister_summary.clone(),
            swap_canister_summary: self.swap_canister_summary.clone(),
            ledger_archive_canister_summaries: self.ledger_archive_canister_summaries.clone(),
            ledger_index_canister_summary: self.ledger_index_canister_summary.clone(),
            dapp_canister_summaries: self.dapp_canister_summaries.clone(),
        }
    }
}

impl SameContent for SwapBackgroundInformation {
    open spec fn same_content(&self, other: &Self) -> bool {
        &&& self.fallback_controller_principal_ids.same_content(&other.fallback_controller_principal_ids)
        &&& self.root_canister_summary.same_content(&other.root_canister_summary)
        &&& self.governance_canister_summary.same_content(&other.governance_canister_summary)
        &&& self.ledger_canister_summary.same_content(&other.ledger_canister_summary)
        &&& self.swap_canister_summary.same_content(&other.swap_canister_summary)
        &&& self.ledger_archive_canister_summaries.same_content(&other.ledger_archive_canister_summaries)
        &&& self.ledger_index_canister_summary.same_content(&other.ledger_index_canister_summary)
        &&& self.dapp_canister_summaries.same_content(&other.dapp_canister_summaries)
    }
}

/// Stores data relevant to the "wait for quiet" implementation.
#[derive(Debug, PartialEq, Default)]
pub struct WaitForQuietState {
    pub current_deadline_timestamp_seconds: u64,
}

impl Clone for WaitForQuietState {
    fn clone(&self) -> (cloned: Self)
        ensures
            cloned.same_content(self),
    {
        WaitForQuietState {
            current_deadline_timestamp_seconds: self.current_deadline_timestamp_seconds,
        }
    }
}

impl SameContent for WaitForQuietState {
    open spec fn same_content(&self, other: &Self) -> bool {
        &&& self.current_deadline_timestamp_seconds.same_content(&other.current_deadline_timestamp_seconds)
    }
}

/// This is a view of the ProposalData returned by API queries and is NOT used
/// for storage. The ballots are restricted to those of the caller's neurons and
/// additionally it has the computed fields, topic, status, and reward_status.
#[derive(Debug, PartialEq, Default)]
pub struct ProposalInfo {
    /// The unique id for this proposal.
    pub id: Option<crate::ids::ProposalId>,
    /// The ID of the neuron that made this proposal.
    pub proposer: Option<crate::ids::NeuronId>,
    /// The amount of ICP in E8s to be charged to the proposer if the proposal is
    /// rejected.
    pub reject_cost_e8s: u64,
    /// The proposal originally submitted.
    pub proposal: Option<Proposal>,
    /// The timestamp, in seconds from the Unix epoch, when this proposal was made.
    pub proposal_timestamp_seconds: u64,
    /// See \[ProposalData::ballots\].
    pub ballots: HashMap<u64, Ballot>,
    /// See \[ProposalData::latest_tally\].
    pub latest_tally: Option<Tally>,
    /// See \[ProposalData::decided_timestamp_seconds\].
    pub decided_timestamp_seconds: u64,
    /// See \[ProposalData::executed_timestamp_seconds\].
    pub executed_timestamp_seconds: u64,
    /// See \[ProposalData::failed_timestamp_seconds\].
    pub failed_timestamp_seconds: u64,
    /// See \[ProposalData::failure_reason\].
    pub failure_reason: Option<GovernanceError>,
    /// See \[ProposalData::reward_event_round\].
    pub reward_event_round: u64,
    /// Derived - see \[Topic\] for more information
    pub topic: i32,
    /// Derived - see \[ProposalStatus\] for more information
    pub status: i32,
    /// Derived - see \[ProposalRewardStatus\] for more information
    pub reward_status: i32,
    pub deadline_timestamp_seconds: Option<u64>,
    pub derived_proposal_information: Option<DerivedProposalInformation>,
}

impl Clone for ProposalInfo {
    fn clone(&self) -> (cloned: Self)
        ensures
            cloned.same_content(self),
    {
        ProposalInfo {
            id: self.id.clone(),
            proposer: self.proposer.clone(),
            reject_cost_e8s: self.reject_cost_e8s,
            proposal: match &self.proposal {
                Some(proposal) => Some(proposal.clone()),
                None => None,
            },
            proposal_timestamp_seconds: self.proposal_timestamp_seconds,
            ballots: self.ballots.clone(),
            latest_tally: self.latest_tally.clone(),
            decided_timestamp_seconds: self.decided_timestamp_seconds,
            executed_timestamp_seconds: self.executed_timestamp_seconds,
            failed_timestamp_seconds: self.failed_timestamp_seconds,
            failure_reason: self.failure_reason.clone(),
            reward_event_round: self.reward_event_round,
            topic: self.topic,
            status: self.status,
            reward_status: self.reward_status,
            deadline_timestamp_seconds: self.deadline_timestamp_seconds.clone(),
            derived_proposal_information: self.derived_proposal_information.clone(),
        }
    }
}

impl SameContent for ProposalInfo {
    open spec fn same_content(&self, other: &Self) -> bool {
        &&& self.id.same_content(&other.id)
        &&& self.proposer.same_content(&other.proposer)
        &&& self.reject_cost_e8s.same_content(&other.reject_cost_e8s)
        &&& self.proposal.same_content(&other.proposal)
        &&& self.proposal_timestamp_seconds.same_content(&other.proposal_timestamp_seconds)
        &&& self.ballots.same_content(&other.ballots)
        &&& self.latest_tally.same_content(&other.latest_tally)
        &&& self.decided_timestamp_seconds.same_content(&other.decided_timestamp_seconds)
        &&& self.executed_timestamp_seconds.same_content(&other.executed_timestamp_seconds)
        &&& self.failed_timestamp_seconds.same_content(&other.failed_timestamp_seconds)
        &&& self.failure_reason.same_content(&other.failure_reason)
        &&& self.reward_event_round.same_content(&other.reward_event_round)
        &&& self.topic.same_content(&other.topic)
        &&& self.status.same_content(&other.status)
        &&& self.reward_status.same_content(&other.reward_status)
        &&& self.deadline_timestamp_seconds.same_content(&other.deadline_timestamp_seconds)
        &&& self.derived_proposal_information.same_content(&other.derived_proposal_information)
    }
}

impl ProposalInfo {
    /// Returns the enum value of `topic`, or the default if the field is set to an invalid enum value.
    pub fn topic(&self) -> (value: Topic)
        ensures
            value == Topic::from_i32_or_default(self.topic),
    {
        match Topic::from_i32(self.topic) {
            Some(value) => value,
            None => Topic::default(),
        }
    }

    /// Sets `topic` to the provided enum value.
    pub fn set_topic(&mut self, value: Topic)
        ensures
            *final(self) == (ProposalInfo { topic: value.spec_value(), ..*old(self) }),
    {
        self.topic = i32::from(value);
    }

    /// `topic` gives back the value that `set_topic` set.
    pub proof fn lemma_topic_after_set_topic(self, value: Topic)
        ensures
            Topic::from_i32_or_default((ProposalInfo { topic: value.spec_value(), ..self }).topic) == value,
    {
        value.lemma_value_round_trip();
    }

    /// Returns the enum value of `status`, or the default if the field is set to an invalid enum value.
    pub fn status(&self) -> (value: ProposalStatus)
        ensures
            value == ProposalStatus::from_i32_or_default(self.status),
    {
        match ProposalStatus::from_i32(self.status) {
            Some(value) => value,
            None => ProposalStatus::default(),
        }
    }

    /// Sets `status` to the provided enum value.
    pub fn set_status(&mut self, value: ProposalStatus)
        ensures
            *final(self) == (ProposalInfo { status: value.spec_value(), ..*old(self) }),
    {
        self.status = i32::from(value);
    }

    /// `status` gives back the value that `set_status` set.
    pub proof fn lemma_status_after_set_status(self, value: ProposalStatus)
        ensures
            ProposalStatus::from_i32_or_default((ProposalInfo { status: value.spec_value(), ..self }).status) == value,
    {
        value.lemma_value_round_trip();
    }

    /// Returns the enum value of `reward_status`, or the default if the field is set to an invalid enum value.
    pub fn reward_status(&self) -> (value: ProposalRewardStatus)
        ensures
            value == ProposalRewardStatus::from_i32_or_default(self.reward_status),
    {
        match ProposalRewardStatus::from_i32(self.reward_status) {
            Some(value) => value,
            None => ProposalRewardStatus::default(),
        }
    }

    /// Sets `reward_status` to the provided enum value.
    pub fn set_reward_status(&mut self, value: ProposalRewardStatus)
        ensures
            *final(self) == (ProposalInfo { reward_status: value.spec_value(), ..*old(self) }),
    {
        self.reward_status = i32::from(value);
    }

    /// `reward_status` gives back the value that `set_reward_status` set.
    pub proof fn lemma_reward_status_after_set_reward_status(self, value: ProposalRewardStatus)
        ensures
            ProposalRewardStatus::from_i32_or_default((ProposalInfo { reward_status: value.spec_value(), ..self }).reward_status) == value,
    {
        value.lemma_value_round_trip();
    }

    /// Returns the value of `deadline_timestamp_seconds`, or the default value if `deadline_timestamp_seconds` is unset.
    pub fn deadline_timestamp_seconds(&self) -> (value: u64)
        ensures
            value == (match self.deadline_timestamp_seconds {
                Some(field) => field,
                None => 0,
            }),
    {
        match self.deadline_timestamp_seconds {
            Some(field) => field,
            None => 0,
        }
    }
}

/// Network economics contains the parameters for several operations related
/// to the economy of the network. When submitting a NetworkEconomics proposal
/// default values (0) are considered unchanged, so a valid proposal only needs
/// to set the parameters that it wishes to change.
/// In other words, it's not possible to set any of the values of
/// NetworkEconomics to 0.
///
/// NOTE: If adding a value to this proto, make sure there is a corresponding
/// `if` in Governance::perform_action().
#[derive(Debug, PartialEq, Default)]
pub struct NetworkEconomics {
    /// The number of E8s (10E-8 of an ICP token) that a rejected
    /// proposal will cost.
    ///
    /// This fee should be controlled by an #Economic proposal type.
    /// The fee does not apply for ManageNeuron proposals.
    pub reject_cost_e8s: u64,
    /// The minimum number of E8s that can be staked in a neuron.
    pub neuron_minimum_stake_e8s: u64,
    /// The number of E8s (10E-8 of an ICP token) that it costs to
    /// employ the 'manage neuron' functionality through proposals. The
    /// cost is incurred by the neuron that makes the 'manage neuron'
    /// proposal and is applied regardless of whether the proposal is
    /// adopted or rejected.
    pub neuron_management_fee_per_proposal_e8s: u64,
    /// The minimum number that the ICP/XDR conversion rate can be set to.
    ///
    /// Measured in XDR (the currency code of IMF SDR) to two decimal
    /// places.
    ///
    /// See /rs/protobuf/def/registry/conversion_rate/v1/conversion_rate.proto
    /// for more information on the rate itself.
    pub minimum_icp_xdr_rate: u64,
    /// The dissolve delay of a neuron spawned from the maturity of an
    /// existing neuron.
    pub neuron_spawn_dissolve_delay_seconds: u64,
    /// The maximum rewards to be distributed to NodeProviders in a single
    /// distribution event, in e8s.
    pub maximum_node_provider_rewards_e8s: u64,
    /// The transaction fee that must be paid for each ledger transaction.
    pub transaction_fee_e8s: u64,
    /// The maximum number of proposals to keep, per topic. When the
    /// total number of proposals for a given topic is greater than this
    /// number, the oldest proposals that have reached a "final" state
    /// may be deleted.
    ///
    /// If unspecified or zero, all proposals are kept.
    pub max_proposals_to_keep_per_topic: u32,
}

impl Clone for NetworkEconomics {
    fn clone(&self) -> (cloned: Self)
        ensures
            cloned.same_content(self),
    {
        NetworkEconomics {
            reject_cost_e8s: self.reject_cost_e8s,
            neuron_minimum_stake_e8s: self.neuron_minimum_stake_e8s,
            neuron_management_fee_per_proposal_e8s: self.neuron_management_fee_per_proposal_e8s,
            minimum_icp_xdr_rate: self.minimum_icp_xdr_rate,
            neuron_spawn_dissolve_delay_seconds: self.neuron_spawn_dissolve_delay_seconds,
            maximum_node_provider_rewards_e8s: self.maximum_node_provider_rewards_e8s,
            transaction_fee_e8s: self.transaction_fee_e8s,
            max_proposals_to_keep_per_topic: self.max_proposals_to_keep_per_topic,
        }
    }
}

impl SameContent for NetworkEconomics {
    open spec fn same_content(&self, other: &Self) -> bool {
        &&& self.reject_cost_e8s.same_content(&other.reject_cost_e8s)
        &&& self.neuron_minimum_stake_e8s.same_content(&other.neuron_minimum_stake_e8s)
        &&& self.neuron_management_fee_per_proposal_e8s.same_content(&other.neuron_management_fee_per_proposal_e8s)
        &&& self.minimum_icp_xdr_rate.same_content(&other.minimum_icp_xdr_rate)
        &&& self.neuron_spawn_dissolve_delay_seconds.same_content(&other.neuron_spawn_dissolve_delay_seconds)
        &&& self.maximum_node_provider_rewards_e8s.same_content(&other.maximum_node_provider_rewards_e8s)
        &&& self.transaction_fee_e8s.same_content(&other.transaction_fee_e8s)
        &&& self.max_proposals_to_keep_per_topic.same_content(&other.max_proposals_to_keep_per_topic)
    }
}

/// A reward event is an event at which neuron maturity is increased
#[derive(Debug, PartialEq, Default)]
pub struct RewardEvent {
    /// This reward event correspond to a time interval that ends at the end of
    /// genesis + day_after_genesis days.
    ///
    /// For instance: when this is 0, this is for a period that ends at genesis -- there can
    /// never be a reward for this.
    ///
    /// When this is 1, this is for the first day after genesis.
    ///
    /// On rare occasions, the reward event may cover several days ending at genesis + day_after_genesis days,
    /// when it was not possible to proceed to a reward event for a while. This makes that day_after_genesis
    /// does not have to be consecutive.
    pub day_after_genesis: u64,
    /// The timestamp at which this reward event took place, in seconds since the unix epoch.
    ///
    /// This does not match the date taken into account for reward computation, which
    /// should always be an integer number of days after genesis.
    pub actual_timestamp_seconds: u64,
    /// The list of proposals that were taken into account during
    /// this reward event.
    pub settled_proposals: Vec<crate::ids::ProposalId>,
    /// The total amount of reward that was distributed during this reward event.
    ///
    /// The unit is "e8s equivalent" to insist that, while this quantity is on
    /// the same scale as ICPs, maturity is not directly convertible to ICPs:
    /// conversion requires a minting event to spawn a new neuron.
    pub distributed_e8s_equivalent: u64,
    /// The total amount of rewards that was available during the reward event.
    pub total_available_e8s_equivalent: u64,
    /// The amount of rewards that was available during the last round included in
    /// this event. This will only be different from `total_available_e8s_equivalent`
    /// if there were "rollover rounds" included in this event.
    pub latest_round_available_e8s_equivalent: Option<u64>,
    /// In some cases, the rewards that would have been distributed in one round are
    /// "rolled over" into the next reward event. This field keeps track of how many
    /// rounds have passed since the last time rewards were distributed (rather
    /// than being rolled over).
    ///
    /// For the genesis reward event, this field will be zero.
    ///
    /// In normal operation, this field will almost always be 1. There are two
    /// reasons that rewards might not be distributed in a given round.
    ///
    /// 1. "Missed" rounds: there was a long period when we did calculate rewards
    ///     (longer than 1 round). (I.e. distribute_rewards was not called by
    ///     heartbeat for whatever reason, most likely some kind of bug.)
    ///
    /// 2. Rollover: We tried to distribute rewards, but there were no proposals
    ///     settled to distribute rewards for.
    ///
    /// In both of these cases, the rewards purse rolls over into the next round.
    pub rounds_since_last_distribution: Option<u64>,
}

impl Clone for RewardEvent {
    fn clone(&self) -> (cloned: Self)
        ensures
            cloned.same_content(self),
    {
        RewardEvent {
            day_after_genesis: self.day_after_genesis,
            actual_timestamp_seconds: self.actual_timestamp_seconds,
            settled_proposals: self.settled_proposals.clone(),
            distributed_e8s_equivalent: self.distributed_e8s_equivalent,
            total_available_e8s_equivalent: self.total_available_e8s_equivalent,
            latest_round_available_e8s_equivalent: self.latest_round_available_e8s_equivalent.clone(),
            rounds_since_last_distribution: self.rounds_since_last_distribution.clone(),
        }
    }
}

impl SameContent for RewardEvent {
    open spec fn same_content(&self, other: &Self) -> bool {
        &&& self.day_after_genesis.same_content(&other.day_after_genesis)
        &&& self.actual_timestamp_seconds.same_content(&other.actual_timestamp_seconds)
        &&& self.settled_proposals.same_content(&other.settled_proposals)
        &&& self.distributed_e8s_equivalent.same_content(&other.distributed_e8s_equivalent)
        &&& self.total_available_e8s_equivalent.same_content(&other.total_available_e8s_equivalent)
        &&& self.latest_round_available_e8s_equivalent.same_content(&other.latest_round_available_e8s_equivalent)
        &&& self.rounds_since_last_distribution.same_content(&other.rounds_since_last_distribution)
    }
}

impl RewardEvent {
    /// Returns the value of `latest_round_available_e8s_equivalent`, or the default value if `latest_round_available_e8s_equivalent` is unset.
    pub fn latest_round_available_e8s_equivalent(&self) -> (value: u64)
        ensures
            value == (match self.latest_round_available_e8s_equivalent {
                Some(field) => field,
                None => 0,
            }),
    {
        match self.latest_round_available_e8s_equivalent {
            Some(field) => field,
            None => 0,
        }
    }

    /// Returns the value of `rounds_since_last_distribution`, or the default value if `rounds_since_last_distribution` is unset.
    pub fn rounds_since_last_distribution(&self) -> (value: u64)
        ensures
            value == (match self.rounds_since_last_distribution {
                Some(field) => field,
                None => 0,
            }),
    {
        match self.rounds_since_last_distribution {
            Some(field) => field,
            None => 0,
        }
    }
}

#[derive(Debug, PartialEq, Default)]
pub struct KnownNeuron {
    pub id: Option<crate::ids::NeuronId>,
    pub known_neuron_data: Option<KnownNeuronData>,
}

impl Clone for KnownNeuron {
    fn clone(&self) -> (cloned: Self)
        ensures
            cloned.same_content(self),
    {
        KnownNeuron {
            id: self.id.clone(),
            known_neuron_data: self.known_neuron_data.clone(),
        }
    }
}

impl SameContent for KnownNeuron {
    open spec fn same_content(&self, other: &Self) -> bool {
        &&& self.id.same_content(&other.id)
        &&& self.known_neuron_data.same_content(&other.known_neuron_data)
    }
}

/// Known neurons have extra information (a name and optionally a description) that can be used to identify them.
#[derive(Debug, PartialEq, Eq, Default)]
pub struct KnownNeuronData {
    pub name: String,
    pub description: Option<String>,
}

impl Clone for KnownNeuronData {
    fn clone(&self) -> (cloned: Self)
        ensures
            cloned.same_content(self),
    {
        KnownNeuronData {
            name: self.name.clone(),
            description: self.description.clone(),
        }
    }
}

impl SameContent for KnownNeuronData {
    open spec fn same_content(&self, other: &Self) -> bool {
        &&& self.name.same_content(&other.name)
        &&& self.description.same_content(&other.description)
    }
}

impl KnownNeuronData {
    /// Returns the value of `description`, or the default value if `description` is unset.
    pub fn description(&self) -> (value: &str)
        ensures
            value@ == (match self.description {
                Some(text) => text@,
                None => Seq::empty(),
            }),
    {
        proof {
            reveal_strlit("");
        }
        match &self.description {
            Some(text) => text.as_str(),
            None => "",
        }
    }
}

/// Proposal action to call the "open" method of an SNS token swap canister.
#[derive(Debug, PartialEq, Default)]
pub struct OpenSnsTokenSwap {
    /// The ID of the canister where the command will be sent (assuming that the
    /// proposal is adopted, of course).
    pub target_swap_canister_id: Option<crate::ids::PrincipalId>,
    /// Various limits on the swap.
    pub params: Option<crate::sns_swap::Params>,
    /// The amount that the community fund will collectively spend in maturity on
    /// the swap.
    pub community_fund_investment_e8s: Option<u64>,
}

impl Clone for OpenSnsTokenSwap {
    fn clone(&self) -> (cloned: Self)
        ensures
            cloned.same_content(self),
    {
        OpenSnsTokenSwap {
            target_swap_canister_id: self.target_swap_canister_id.clone(),
            params: self.params.clone(),
            community_fund_investment_e8s: self.community_fund_investment_e8s.clone(),
        }
    }
}

impl SameContent for OpenSnsTokenSwap {
    open spec fn same_content(&self, other: &Self) -> bool {
        &&& self.target_swap_canister_id.same_content(&other.target_swap_canister_id)
        &&& self.params.same_content(&other.params)
        &&& self.community_fund_investment_e8s.same_content(&other.community_fund_investment_e8s)
    }
}

impl OpenSnsTokenSwap {
    /// Returns the value of `community_fund_investment_e8s`, or the default value if `community_fund_investment_e8s` is unset.
    pub fn community_fund_investment_e8s(&self) -> (value: u64)
        ensures
            value == (match self.community_fund_investment_e8s {
                Some(field) => field,
                None => 0,
            }),
    {
        match self.community_fund_investment_e8s {
            Some(field) => field,
            None => 0,
        }
    }
}

/// Mainly, calls the deploy_new_sns Candid method on the SNS-WASMs canister.
/// Therefore, most of the fields here have equivalents in SnsInitPayload.
/// Please, consult the comments therein.
///
/// Metadata
/// --------
#[derive(Debug, PartialEq, Default)]
pub struct CreateServiceNervousSystem {
    pub name: Option<String>,
    pub description: Option<String>,
    pub url: Option<String>,
    pub logo: Option<crate::nervous_system::Image>,
    // Canister Control
    // ----------------
    pub fallback_controller_principal_ids: Vec<crate::ids::PrincipalId>,
    pub dapp_canisters: Vec<crate::nervous_system::Canister>,
    pub initial_token_distribution: Option<create_service_nervous_system::InitialTokenDistribution>,
    pub swap_parameters: Option<create_service_nervous_system::SwapParameters>,
    pub ledger_parameters: Option<create_service_nervous_system::LedgerParameters>,
    pub governance_parameters: Option<create_service_nervous_system::GovernanceParameters>,
}

impl Clone for CreateServiceNervousSystem {
    fn clone(&self) -> (cloned: Self)
        ensures
            cloned.same_content(self),
    {
        CreateServiceNervousSystem {
            name: self.name.clone(),
            description: self.description.clone(),
            url: self.url.clone(),
            logo: self.logo.clone(),
            fallback_controller_principal_ids: self.fallback_controller_principal_ids.clone(),
            dapp_canisters: self.dapp_canisters.clone(),
            initial_token_distribution: self.initial_token_distribution.clone(),
            swap_parameters: self.swap_parameters.clone(),
            ledger_parameters: self.ledger_parameters.clone(),
            governance_parameters: self.governance_parameters.clone(),
        }
    }
}

impl SameContent for CreateServiceNervousSystem {
    open spec fn same_content(&self, other: &Self) -> bool {
        &&& self.name.same_content(&other.name)
        &&& self.description.same_content(&other.description)
        &&& self.url.same_content(&other.url)
        &&& self.logo.same_content(&other.logo)
        &&& self.fallback_controller_principal_ids.same_content(&other.fallback_controller_principal_ids)
        &&& self.dapp_canisters.same_content(&other.dapp_canisters)
        &&& self.initial_token_distribution.same_content(&other.initial_token_distribution)
        &&& self.swap_parameters.same_content(&other.swap_parameters)
        &&& self.ledger_parameters.same_content(&other.ledger_parameters)
        &&& self.governance_parameters.same_content(&other.governance_parameters)
    }
}

impl CreateServiceNervousSystem {
    /// Returns the value of `name`, or the default value if `name` is unset.
    pub fn name(&self) -> (value: &str)
        ensures
            value@ == (match self.name {
                Some(text) => text@,
                None => Seq::empty(),
            }),
    {
        proof {
            reveal_strlit("");
        }
        match &self.name {
            Some(text) => text.as_str(),
            None => "",
        }
    }

    /// Returns the value of `description`, or the default value if `description` is unset.
    pub fn description(&self) -> (value: &str)
        ensures
            value@ == (match self.description {
                Some(text) => text@,
                None => Seq::empty(),
            }),
    {
        proof {
            reveal_strlit("");
        }
        match &self.description {
            Some(text) => text.as_str(),
            None => "",
        }
    }

    /// Returns the value of `url`, or the default value if `url` is unset.
    pub fn url(&self) -> (value: &str)
        ensures
            value@ == (match self.url {
                Some(text) => text@,
                None => Seq::empty(),
            }),
    {
        proof {
            reveal_strlit("");
        }
        match &self.url {
            Some(text) => text.as_str(),
            None => "",
        }
    }
}

/// This represents the whole NNS governance system. It contains all
/// information about the NNS governance system that must be kept
/// across upgrades of the NNS governance system.
#[derive(Debug, PartialEq, Default)]
pub struct Governance {
    /// Current set of neurons.
    pub neurons: HashMap<u64, Neuron>,
    /// Proposals.
    pub proposals: BTreeMap<u64, ProposalData>,
    /// The transfers that have been made to stake new neurons, but
    /// haven't been claimed by the user, yet.
    pub to_claim_transfers: Vec<NeuronStakeTransfer>,
    /// Also known as the 'normal voting period'. The maximum time a
    /// proposal (of a topic with "normal" voting period) is open for
    /// voting. If a proposal has not been decided (adopted or rejected)
    /// within this time since the proposal was made, the proposal is
    /// rejected.
    ///
    /// See also `short_voting_period_seconds`.
    pub wait_for_quiet_threshold_seconds: u64,
    /// The network economics configuration parameters.
    pub economics: Option<NetworkEconomics>,
    /// The last reward event. Should never be missing.
    pub latest_reward_event: Option<RewardEvent>,
    /// Set of in-flight neuron ledger commands.
    ///
    /// Whenever we issue a ledger transfer (for disburse, split, spawn etc)
    /// we store it in this map, keyed by the id of the neuron being changed
    /// and remove the entry when it completes.
    ///
    /// An entry being present in this map acts like a "lock" on the neuron
    /// and thus prevents concurrent changes that might happen due to the
    /// interleaving of user requests and callback execution.
    ///
    /// If there are no ongoing requests, this map should be empty.
    ///
    /// If something goes fundamentally wrong (say we trap at some point
    /// after issuing a transfer call) the neuron(s) involved are left in a
    /// "locked" state, meaning new operations can't be applied without
    /// reconciling the state.
    ///
    /// Because we know exactly what was going on, we should have the
    /// information necessary to reconcile the state, using custom code
    /// added on upgrade, if necessary.
    pub in_flight_commands: HashMap<u64, governance::NeuronInFlightCommand>,
    /// The timestamp, in seconds since the unix epoch, at which `canister_init` was run for
    /// the governance canister, considered
    /// the genesis of the IC for reward purposes.
    pub genesis_timestamp_seconds: u64,
    /// The entities that own the nodes running the IC.
    pub node_providers: Vec<NodeProvider>,
    /// Default followees
    ///
    /// A map of Topic (as i32) to Neuron id that is set as the default
    /// following for all neurons created post-genesis.
    ///
    /// On initialization it's required that the Neurons present in this
    /// map are present in the initial set of neurons.
    ///
    /// Default following can be changed via proposal.
    pub default_followees: HashMap<i32, neuron::Followees>,
    /// The maximum time a proposal of a topic with *short voting period*
    /// is open for voting. If a proposal on a topic with short voting
    /// period has not been decided (adopted or rejected) within this
    /// time since the proposal was made, the proposal is rejected.
    pub short_voting_period_seconds: u64,
    pub most_recent_monthly_node_provider_rewards: Option<MostRecentMonthlyNodeProviderRewards>,
    /// Cached value for the maturity modulation as calculated each day.
    pub cached_daily_maturity_modulation_basis_points: Option<i32>,
    /// The last time that the maturity modulation value was updated.
    pub maturity_modulation_last_updated_at_timestamp_seconds: Option<u64>,
    /// Whether the heartbeat function is currently spawning neurons, meaning
    /// that it should finish before being called again.
    pub spawning_neurons: Option<bool>,
}

impl Clone for Governance {
    fn clone(&self) -> (cloned: Self)
        ensures
            cloned.same_content(self),
    {
        Governance {
            neurons: self.neurons.clone(),
            proposals: self.proposals.clone(),
            to_claim_transfers: self.to_claim_transfers.clone(),
            wait_for_quiet_threshold_seconds: self.wait_for_quiet_threshold_seconds,
            economics: self.economics.clone(),
            latest_reward_event: self.latest_reward_event.clone(),
            in_flight_commands: self.in_flight_commands.clone(),
            genesis_timestamp_seconds: self.genesis_timestamp_seconds,
            node_providers: self.node_providers.clone(),
            default_followees: self.default_followees.clone(),
            short_voting_period_seconds: self.short_voting_period_seconds,
            most_recent_monthly_node_provider_rewards: self.most_recent_monthly_node_provider_rewards.clone(),
            cached_daily_maturity_modulation_basis_points: self.cached_daily_maturity_modulation_basis_points.clone(),
            maturity_modulation_last_updated_at_timestamp_seconds: self.maturity_modulation_last_updated_at_timestamp_seconds.clone(),
            spawning_neurons: self.spawning_neurons.clone(),
        }
    }
}

impl SameContent for Governance {
    open spec fn same_content(&self, other: &Self) -> bool {
        &&& self.neurons.same_content(&other.neurons)
        &&& self.proposals.same_content(&other.proposals)
        &&& self.to_claim_transfers.same_content(&other.to_claim_transfers)
        &&& self.wait_for_quiet_threshold_seconds.same_content(&other.wait_for_quiet_threshold_seconds)
        &&& self.economics.same_content(&other.economics)
        &&& self.latest_reward_event.same_content(&other.latest_reward_event)
        &&& self.in_flight_commands.same_content(&other.in_flight_commands)
        &&& self.genesis_timestamp_seconds.same_content(&other.genesis_timestamp_seconds)
        &&& self.node_providers.same_content(&other.node_providers)
        &&& self.default_followees.same_content(&other.default_followees)
        &&& self.short_voting_period_seconds.same_content(&other.short_voting_period_seconds)
        &&& self.most_recent_monthly_node_provider_rewards.same_content(&other.most_recent_monthly_node_provider_rewards)
        &&& self.cached_daily_maturity_modulation_basis_points.same_content(&other.cached_daily_maturity_modulation_basis_points)
        &&& self.maturity_modulation_last_updated_at_timestamp_seconds.same_content(&other.maturity_modulation_last_updated_at_timestamp_seconds)
        &&& self.spawning_neurons.same_content(&other.spawning_neurons)
    }
}

impl Governance {
    /// Returns the value of `cached_daily_maturity_modulation_basis_points`, or the default value if `cached_daily_maturity_modulation_basis_points` is unset.
    pub fn cached_daily_maturity_modulation_basis_points(&self) -> (value: i32)
        ensures
            value == (match self.cached_daily_maturity_modulation_basis_points {
                Some(field) => field,
                None => 0,
            }),
    {
        match self.cached_daily_maturity_modulation_basis_points {
            Some(field) => field,
            None => 0,
        }
    }

    /// Returns the value of `maturity_modulation_last_updated_at_timestamp_seconds`, or the default value if `maturity_modulation_last_updated_at_timestamp_seconds` is unset.
    pub fn maturity_modulation_last_updated_at_timestamp_seconds(&self) -> (value: u64)
        ensures
            value == (match self.maturity_modulation_last_updated_at_timestamp_seconds {
                Some(field) => field,
                None => 0,
            }),
    {
        match self.maturity_modulation_last_updated_at_timestamp_seconds {
            Some(field) => field,
            None => 0,
        }
    }

    /// Returns the value of `spawning_neurons`, or the default value if `spawning_neurons` is unset.
    pub fn spawning_neurons(&self) -> (value: bool)
        ensures
            value == (match self.spawning_neurons {
                Some(field) => field,
                None => false,
            }),
    {
        match self.spawning_neurons {
            Some(field) => field,
            None => false,
        }
    }
}

/// Proposals with restricted voting are not included unless the caller
/// is allowed to vote on them.
///
/// The actual ballots of the proposal are restricted to ballots cast
/// by the caller.
#[derive(Debug, PartialEq, Default)]
pub struct ListProposalInfo {
    /// Limit on the number of \[ProposalInfo\] to return. If no value is
    /// specified, or if a value greater than 100 is specified, 100
    /// will be used.
    pub limit: u32,
    /// If specified, only return proposals that are strictly earlier than
    /// the specified proposal according to the proposal ID. If not
    /// specified, start with the most recent proposal.
    pub before_proposal: Option<crate::ids::ProposalId>,
    /// Exclude proposals with a topic in this list. This is particularly
    /// useful to exclude proposals on the topics TOPIC_EXCHANGE_RATE and
    /// TOPIC_KYC which most users are not likely to be interested in
    /// seeing.
    pub exclude_topic: Vec<i32>,
    /// Include proposals that have a reward status in this list (see
    /// \[ProposalRewardStatus\] for more information). If this list is
    /// empty, no restriction is applied. For example, many users listing
    /// proposals will only be interested in proposals for which they can
    /// receive voting rewards, i.e., with reward status
    /// PROPOSAL_REWARD_STATUS_ACCEPT_VOTES.
    pub include_reward_status: Vec<i32>,
    /// Include proposals that have a status in this list (see
    /// \[ProposalStatus\] for more information). If this list is empty, no
    /// restriction is applied.
    pub include_status: Vec<i32>,
    /// Include all ManageNeuron proposals regardless of the visibility of the
    /// proposal to the caller principal. Note that exclude_topic is still
    /// respected even when this option is set to true.
    pub include_all_manage_neuron_proposals: Option<bool>,
}

impl Clone for ListProposalInfo {
    fn clone(&self) -> (cloned: Self)
        ensures
            cloned.same_content(self),
    {
        ListProposalInfo {
            limit: self.limit,
            before_proposal: self.before_proposal.clone(),
            exclude_topic: self.exclude_topic.clone(),
            include_reward_status: self.include_reward_status.clone(),
            include_status: self.include_status.clone(),
            include_all_manage_neuron_proposals: self.include_all_manage_neuron_proposals.clone(),
        }
    }
}

impl SameContent for ListProposalInfo {
    open spec fn same_content(&self, other: &Self) -> bool {
        &&& self.limit.same_content(&other.limit)
        &&& self.before_proposal.same_content(&other.before_proposal)
        &&& self.exclude_topic.same_content(&other.exclude_topic)
        &&& self.include_reward_status.same_content(&other.include_reward_status)
        &&& self.include_status.same_content(&other.include_status)
        &&& self.include_all_manage_neuron_proposals.same_content(&other.include_all_manage_neuron_proposals)
    }
}

impl ListProposalInfo {
    /// Returns the valid enum values contained in `exclude_topic`, in order.
    pub fn exclude_topic(&self) -> (values: Vec<Topic>)
        ensures
            values@ == Topic::valid_values(self.exclude_topic@),
    {
        let mut values: Vec<Topic> = Vec::new();
        let mut i: usize = 0;
        while i < self.exclude_topic.len()
            invariant
                i <= self.exclude_topic@.len(),
                values@ == Topic::valid_values(self.exclude_topic@.take(i as int)),
            decreases self.exclude_topic@.len() - i,
        {
            assert(self.exclude_topic@.take(i as int + 1).drop_last() == self.exclude_topic@.take(i as int));
            match Topic::from_i32(self.exclude_topic[i]) {
                Some(value) => values.push(value),
                None => {},
            }
            i = i + 1;
        }
        assert(self.exclude_topic@.take(i as int) == self.exclude_topic@);
        values
    }

    /// Appends the provided enum value to `exclude_topic`.
    pub fn push_exclude_topic(&mut self, value: Topic)
        ensures
            final(self).exclude_topic@ == old(self).exclude_topic@.push(value.spec_value()),
            *final(self) == (ListProposalInfo { exclude_topic: final(self).exclude_topic, ..*old(self) }),
    {
        self.exclude_topic.push(i32::from(value));
    }

    /// After `push_exclude_topic`, `exclude_topic` gives the values it gave before, followed by the pushed one.
    pub proof fn lemma_exclude_topic_after_push_exclude_topic(self, value: Topic)
        ensures
            Topic::valid_values(self.exclude_topic@.push(value.spec_value())) == Topic::valid_values(self.exclude_topic@).push(value),
    {
        value.lemma_value_round_trip();
        assert(self.exclude_topic@.push(value.spec_value()).drop_last() == self.exclude_topic@);
    }

    /// Returns the valid enum values contained in `include_reward_status`, in order.
    pub fn include_reward_status(&self) -> (values: Vec<ProposalRewardStatus>)
        ensures
            values@ == ProposalRewardStatus::valid_values(self.include_reward_status@),
    {
        let mut values: Vec<ProposalRewardStatus> = Vec::new();
        let mut i: usize = 0;
        while i < self.include_reward_status.len()
            invariant
                i <= self.include_reward_status@.len(),
                values@ == ProposalRewardStatus::valid_values(self.include_reward_status@.take(i as int)),
            decreases self.include_reward_status@.len() - i,
        {
            assert(self.include_reward_status@.take(i as int + 1).drop_last() == self.include_reward_status@.take(i as int));
            match ProposalRewardStatus::from_i32(self.include_reward_status[i]) {
                Some(value) => values.push(value),
                None => {},
            }
            i = i + 1;
        }
        assert(self.include_reward_status@.take(i as int) == self.include_reward_status@);
        values
    }

    /// Appends the provided enum value to `include_reward_status`.
    pub fn push_include_reward_status(&mut self, value: ProposalRewardStatus)
        ensures
            final(self).include_reward_status@ == old(self).include_reward_status@.push(value.spec_value()),
            *final(self) == (ListProposalInfo { include_reward_status: final(self).include_reward_status, ..*old(self) }),
    {
        self.include_reward_status.push(i32::from(value));
    }

    /// After `push_include_reward_status`, `include_reward_status` gives the values it gave before, followed by the pushed one.
    pub proof fn lemma_include_reward_status_after_push_include_reward_status(self, value: ProposalRewardStatus)
        ensures
            ProposalRewardStatus::valid_values(self.include_reward_status@.push(value.spec_value())) == ProposalRewardStatus::valid_values(self.include_reward_status@).push(value),
    {
        value.lemma_value_round_trip();
        assert(self.include_reward_status@.push(value.spec_value()).drop_last() == self.include_reward_status@);
    }

    /// Returns the valid enum values contained in `include_status`, in order.
    pub fn include_status(&self) -> (values: Vec<ProposalStatus>)
        ensures
            values@ == ProposalStatus::valid_values(self.include_status@),
    {
        let mut values: Vec<ProposalStatus> = Vec::new();
        let mut i: usize = 0;
        while i < self.include_status.len()
            invariant
                i <= self.include_status@.len(),
                values@ == ProposalStatus::valid_values(self.include_status@.take(i as int)),
            decreases self.include_status@.len() - i,
        {
            assert(self.include_status@.take(i as int + 1).drop_last() == self.include_status@.take(i as int));
            match ProposalStatus::from_i32(self.include_status[i]) {
                Some(value) => values.push(value),
                None => {},
            }
            i = i + 1;
        }
        assert(self.include_status@.take(i as int) == self.include_status@);
        values
    }

    /// Appends the provided enum value to `include_status`.
    pub fn push_include_status(&mut self, value: ProposalStatus)
        ensures
            final(self).include_status@ == old(self).include_status@.push(value.spec_value()),
            *final(self) == (ListProposalInfo { include_status: final(self).include_status, ..*old(self) }),
    {
        self.include_status.push(i32::from(value));
    }

    /// After `push_include_status`, `include_status` gives the values it gave before, followed by the pushed one.
    pub proof fn lemma_include_status_after_push_include_status(self, value: ProposalStatus)
        ensures
            ProposalStatus::valid_values(self.include_status@.push(value.spec_value())) == ProposalStatus::valid_values(self.include_status@).push(value),
    {
        value.lemma_value_round_trip();
        assert(self.include_status@.push(value.spec_value()).drop_last() == self.include_status@);
    }

    /// Returns the value of `include_all_manage_neuron_proposals`, or the default value if `include_all_manage_neuron_proposals` is unset.
    pub fn include_all_manage_neuron_proposals(&self) -> (value: bool)
        ensures
            value == (match self.include_all_manage_neuron_proposals {
                Some(field) => field,
                None => false,
            }),
    {
        match self.include_all_manage_neuron_proposals {
            Some(field) => field,
            None => false,
        }
    }
}

#[derive(Debug, PartialEq, Default)]
pub struct ListProposalInfoResponse {
    pub proposal_info: Vec<ProposalInfo>,
}

impl Clone for ListProposalInfoResponse {
    fn clone(&self) -> (cloned: Self)
        ensures
            cloned.same_content(self),
    {
        let mut proposal_info: Vec<ProposalInfo> = Vec::new();
        let mut i: usize = 0;
        while i < self.proposal_info.len()
            invariant
                i <= self.proposal_info@.len(),
                proposal_info@.len() == i,
                forall|j: int|
                    0 <= j < i ==> #[trigger] proposal_info@[j].same_content(&self.proposal_info@[j]),
            decreases self.proposal_info@.len() - i,
        {
            proposal_info.push(self.proposal_info[i].clone());
            i = i + 1;
        }
        ListProposalInfoResponse { proposal_info }
    }
}

impl SameContent for ListProposalInfoResponse {
    open spec fn same_content(&self, other: &Self) -> bool {
        &&& self.proposal_info.same_content(&other.proposal_info)
    }
}

/// A request to list neurons. The "requested list", i.e., the list of
/// neuron IDs to retrieve information about, is the union of the list
/// of neurons listed in `neuron_ids` and, if `caller_neurons` is true,
/// the list of neuron IDs of neurons for which the caller is the
/// controller or one of the hot keys.
#[derive(Debug, PartialEq, Default)]
pub struct ListNeurons {
    /// The neurons to get information about. The "requested list"
    /// contains all of these neuron IDs.
    pub neuron_ids: Vec<u64>,
    /// If true, the "requested list" also contains the neuron ID of the
    /// neurons that the calling principal is authorized to read.
    pub include_neurons_readable_by_caller: bool,
}

impl Clone for ListNeurons {
    fn clone(&self) -> (cloned: Self)
        ensures
            cloned.same_content(self),
    {
        ListNeurons {
            neuron_ids: self.neuron_ids.clone(),
            include_neurons_readable_by_caller: self.include_neurons_readable_by_caller,
        }
    }
}

impl SameContent for ListNeurons {
    open spec fn same_content(&self, other: &Self) -> bool {
        &&& self.neuron_ids.same_content(&other.neuron_ids)
        &&& self.include_neurons_readable_by_caller.same_content(&other.include_neurons_readable_by_caller)
    }
}

/// A response to a `ListNeurons` request.
///
/// The "requested list" is described in `ListNeurons`.
#[derive(Debug, PartialEq, Default)]
pub struct ListNeuronsResponse {
    /// For each neuron ID in the "requested list", if this neuron exists,
    /// its `NeuronInfo` at the time of the call will be in this map.
    pub neuron_infos: HashMap<u64, NeuronInfo>,
    /// For each neuron ID in the "requested list", if the neuron exists,
    /// and the caller is authorized to read the full neuron (controller,
    /// hot key, or controller or hot key of some followee on the
    /// `ManageNeuron` topic).
    pub full_neurons: Vec<Neuron>,
}

impl Clone for ListNeuronsResponse {
    fn clone(&self) -> (cloned: Self)
        ensures
            cloned.same_content(self),
    {
        ListNeuronsResponse {
            neuron_infos: self.neuron_infos.clone(),
            full_neurons: self.full_neurons.clone(),
        }
    }
}

impl SameContent for ListNeuronsResponse {
    open spec fn same_content(&self, other: &Self) -> bool {
        &&& self.neuron_infos.same_content(&other.neuron_infos)
        &&& self.full_neurons.same_content(&other.full_neurons)
    }
}

/// A response to "ListKnownNeurons"
#[derive(Debug, PartialEq, Default)]
pub struct ListKnownNeuronsResponse {
    /// List of known neurons.
    pub known_neurons: Vec<KnownNeuron>,
}

impl Clone for ListKnownNeuronsResponse {
    fn clone(&self) -> (cloned: Self)
        ensures
            cloned.same_content(self),
    {
        ListKnownNeuronsResponse {
            known_neurons: self.known_neurons.clone(),
        }
    }
}

impl SameContent for ListKnownNeuronsResponse {
    open spec fn same_content(&self, other: &Self) -> bool {
        &&& self.known_neurons.same_content(&other.known_neurons)
    }
}

/// Response to list_node_providers
#[derive(Debug, PartialEq, Default)]
pub struct ListNodeProvidersResponse {
    /// List of all "NodeProviders"
    pub node_providers: Vec<NodeProvider>,
}

impl Clone for ListNodeProvidersResponse {
    fn clone(&self) -> (cloned: Self)
        ensures
            cloned.same_content(self),
    {
        ListNodeProvidersResponse {
            node_providers: self.node_providers.clone(),
        }
    }
}

impl SameContent for ListNodeProvidersResponse {
    open spec fn same_content(&self, other: &Self) -> bool {
        &&& self.node_providers.same_content(&other.node_providers)
    }
}

/// The arguments to the method `claim_or_refresh_neuron_from_account`.
///
/// DEPRECATED: Use ManageNeuron::ClaimOrRefresh.
#[derive(Debug, PartialEq, Default)]
pub struct ClaimOrRefreshNeuronFromAccount {
    /// The principal for which to refresh the account. If not specified,
    /// defaults to the caller.
    pub controller: Option<crate::ids::PrincipalId>,
    /// The memo of the staking transaction.
    pub memo: u64,
}

impl Clone for ClaimOrRefreshNeuronFromAccount {
    fn clone(&self) -> (cloned: Self)
        ensures
            cloned.same_content(self),
    {
        ClaimOrRefreshNeuronFromAccount {
            controller: self.controller.clone(),
            memo: self.memo,
        }
    }
}

impl SameContent for ClaimOrRefreshNeuronFromAccount {
    open spec fn same_content(&self, other: &Self) -> bool {
        &&& self.controller.same_content(&other.controller)
        &&& self.memo.same_content(&other.memo)
    }
}

/// Response to claim_or_refresh_neuron_from_account.
///
/// DEPRECATED: Use ManageNeuron::ClaimOrRefresh.
#[derive(Debug, PartialEq, Default)]
pub struct ClaimOrRefreshNeuronFromAccountResponse {
    pub result: Option<claim_or_refresh_neuron_from_account_response::Result>,
}

impl Clone for ClaimOrRefreshNeuronFromAccountResponse {
    fn clone(&self) -> (cloned: Self)
        ensures
            cloned.same_content(self),
    {
        ClaimOrRefreshNeuronFromAccountResponse {
            result: self.result.clone(),
        }
    }
}

impl SameContent for ClaimOrRefreshNeuronFromAccountResponse {
    open spec fn same_content(&self, other: &Self) -> bool {
        &&& self.result.same_content(&other.result)
    }
}

/// The most recent monthly Node Provider rewards
#[derive(Debug, PartialEq, Default)]
pub struct MostRecentMonthlyNodeProviderRewards {
    pub timestamp: u64,
    pub rewards: Vec<RewardNodeProvider>,
}

impl Clone for MostRecentMonthlyNodeProviderRewards {
    fn clone(&self) -> (cloned: Self)
        ensures
            cloned.same_content(self),
    {
        MostRecentMonthlyNodeProviderRewards {
            timestamp: self.timestamp,
            rewards: self.rewards.clone(),
        }
    }
}

impl SameContent for MostRecentMonthlyNodeProviderRewards {
    open spec fn same_content(&self, other: &Self) -> bool {
        &&& self.timestamp.same_content(&other.timestamp)
        &&& self.rewards.same_content(&other.rewards)
    }
}

/// TODO(NNS1-1589): Until the Jira ticket gets solved, changes here need to be
/// manually propagated to (sns) swap.proto.
#[derive(Debug, PartialEq, Default)]
pub struct SettleCommunityFundParticipation {
    /// The caller's principal ID must match the value in the
    /// target_swap_canister_id field in the proposal (more precisely, in the
    /// OpenSnsTokenSwap).
    pub open_sns_token_swap_proposal_id: Option<u64>,
    /// Each of the possibilities here corresponds to one of two ways that a swap
    /// can terminate. See also sns_swap_pb::Lifecycle::is_terminal.
    pub result: Option<settle_community_fund_participation::Result>,
}

impl Clone for SettleCommunityFundParticipation {
    fn clone(&self) -> (cloned: Self)
        ensures
            cloned.same_content(self),
    {
        SettleCommunityFundParticipation {
            open_sns_token_swap_proposal_id: self.open_sns_token_swap_proposal_id.clone(),
            result: self.result.clone(),
        }
    }
}

impl SameContent for SettleCommunityFundParticipation {
    open spec fn same_content(&self, other: &Self) -> bool {
        &&& self.open_sns_token_swap_proposal_id.same_content(&other.open_sns_token_swap_proposal_id)
        &&& self.result.same_content(&other.result)
    }
}

impl SettleCommunityFundParticipation {
    /// Returns the value of `open_sns_token_swap_proposal_id`, or the default value if `open_sns_token_swap_proposal_id` is unset.
    pub fn open_sns_token_swap_proposal_id(&self) -> (value: u64)
        ensures
            value == (match self.open_sns_token_swap_proposal_id {
                Some(field) => field,
                None => 0,
            }),
    {
        match self.open_sns_token_swap_proposal_id {
            Some(field) => field,
            None => 0,
        }
    }
}

/// Audit events in order to leave an audit trail for certain operations.
#[derive(Debug, PartialEq, Default)]
pub struct AuditEvent {
    /// The timestamp of the event.
    pub timestamp_seconds: u64,
    pub payload: Option<audit_event::Payload>,
}

impl Clone for AuditEvent {
    fn clone(&self) -> (cloned: Self)
        ensures
            cloned.same_content(self),
    {
        AuditEvent {
            timestamp_seconds: self.timestamp_seconds,
            payload: self.payload.clone(),
        }
    }
}

impl SameContent for AuditEvent {
    open spec fn same_content(&self, other: &Self) -> bool {
        &&& self.timestamp_seconds.same_content(&other.timestamp_seconds)
        &&& self.payload.same_content(&other.payload)
    }
}

/// Proposal types are organized into topics. Neurons can automatically
/// vote based on following other neurons, and these follow
/// relationships are defined per topic.
#[derive(Copy, Debug, PartialEq, Eq, Structural, Hash, PartialOrd, Ord)]
pub enum Topic {
    /// The `Unspecified` topic is used as a fallback when
    /// following. That is, if no followees are specified for a given
    /// topic, the followees for this topic are used instead.
    Unspecified,
    /// A special topic by means of which a neuron can be managed by the
    /// followees for this topic (in this case, there is no fallback to
    /// 'unspecified'). Votes on this topic are not included in the
    /// voting history of the neuron (cf., `recent_ballots` in `Neuron`).
    ///
    /// For proposals on this topic, only followees on the 'neuron
    /// management' topic of the neuron that the proposals pertains to
    /// are allowed to vote.
    ///
    /// As the set of eligible voters on this topic is restricted,
    /// proposals on this topic have a *short voting period*.
    NeuronManagement,
    /// All proposals that provide “real time” information about the
    /// value of ICP, as measured by an IMF SDR, which allows the NNS to
    /// convert ICP to cycles (which power computation) at a rate which
    /// keeps their real world cost constant. Votes on this topic are not
    /// included in the voting history of the neuron (cf.,
    /// `recent_ballots` in `Neuron`).
    ///
    /// Proposals on this topic have a *short voting period* due to their
    /// frequency.
    ExchangeRate,
    /// All proposals that administer network economics, for example,
    /// determining what rewards should be paid to node operators.
    NetworkEconomics,
    /// All proposals that administer governance, for example to freeze
    /// malicious canisters that are harming the network.
    Governance,
    /// All proposals that administer node machines, including, but not
    /// limited to, upgrading or configuring the OS, upgrading or
    /// configuring the virtual machine framework and upgrading or
    /// configuring the node replica software.
    NodeAdmin,
    /// All proposals that administer network participants, for example,
    /// granting and revoking DCIDs (data center identities) or NOIDs
    /// (node operator identities).
    ParticipantManagement,
    /// All proposals that administer network subnets, for example
    /// creating new subnets, adding and removing subnet nodes, and
    /// splitting subnets.
    SubnetManagement,
    /// Installing and upgrading “system” canisters that belong to the network.
    /// For example, upgrading the NNS.
    NetworkCanisterManagement,
    /// Proposals that update KYC information for regulatory purposes,
    /// for example during the initial Genesis distribution of ICP in the
    /// form of neurons.
    Kyc,
    /// Topic for proposals to reward node providers.
    NodeProviderRewards,
    /// Superseded by SNS_COMMUNITY_FUND.
    ///
    /// TODO(NNS1-1787): Delete this. In addition to clients wiping this from their
    /// memory, I think we'll need Candid support in order to safely delete
    /// this. There is no rush to delete this though.
    SnsDecentralizationSale,
    /// Proposals handling updates of a subnet's replica version.
    /// The only proposal in this topic is UpdateSubnetReplicaVersion.
    SubnetReplicaVersionManagement,
    /// All proposals dealing with blessing and retirement of replica versions.
    ReplicaVersionManagement,
    /// Proposals related to SNS and Community Fund.
    SnsAndCommunityFund,
}

impl Clone for Topic {
    fn clone(&self) -> (cloned: Self)
        ensures
            cloned == *self,
    {
        *self
    }
}

impl SameContent for Topic {
    open spec fn same_content(&self, other: &Self) -> bool {
        *self == *other
    }
}

impl Topic {
    /// The number that the ProtoBuf definition gives to this variant.
    pub open spec fn spec_value(self) -> i32 {
        match self {
            Topic::Unspecified => 0,
            Topic::NeuronManagement => 1,
            Topic::ExchangeRate => 2,
            Topic::NetworkEconomics => 3,
            Topic::Governance => 4,
            Topic::NodeAdmin => 5,
            Topic::ParticipantManagement => 6,
            Topic::SubnetManagement => 7,
            Topic::NetworkCanisterManagement => 8,
            Topic::Kyc => 9,
            Topic::NodeProviderRewards => 10,
            Topic::SnsDecentralizationSale => 11,
            Topic::SubnetReplicaVersionManagement => 12,
            Topic::ReplicaVersionManagement => 13,
            Topic::SnsAndCommunityFund => 14,
        }
    }

    /// The variant that the ProtoBuf definition numbers `value`, if there is one.
    pub open spec fn spec_from_i32(value: i32) -> Option<Topic> {
        match value {
            0 => Some(Topic::Unspecified),
            1 => Some(Topic::NeuronManagement),
            2 => Some(Topic::ExchangeRate),
            3 => Some(Topic::NetworkEconomics),
            4 => Some(Topic::Governance),
            5 => Some(Topic::NodeAdmin),
            6 => Some(Topic::ParticipantManagement),
            7 => Some(Topic::SubnetManagement),
            8 => Some(Topic::NetworkCanisterManagement),
            9 => Some(Topic::Kyc),
            10 => Some(Topic::NodeProviderRewards),
            11 => Some(Topic::SnsDecentralizationSale),
            12 => Some(Topic::SubnetReplicaVersionManagement),
            13 => Some(Topic::ReplicaVersionManagement),
            14 => Some(Topic::SnsAndCommunityFund),
            _ => None,
        }
    }

    /// The variant numbered `value`, or the default variant where there is none.
    pub open spec fn from_i32_or_default(value: i32) -> Topic {
        match Self::spec_from_i32(value) {
            Some(variant) => variant,
            None => Topic::Unspecified,
        }
    }

    /// The variants numbered by the valid entries of `values`, in order.
    pub open spec fn valid_values(values: Seq<i32>) -> Seq<Topic>
        decreases values.len(),
    {
        if values.len() == 0 {
            Seq::empty()
        } else {
            let init = Self::valid_values(values.drop_last());
            match Self::spec_from_i32(values.last()) {
                Some(variant) => init.push(variant),
                None => init,
            }
        }
    }

    /// The name of this variant in the ProtoBuf definition.
    pub open spec fn str_name(self) -> Seq<char> {
        match self {
            Topic::Unspecified => "TOPIC_UNSPECIFIED"@,
            Topic::NeuronManagement => "TOPIC_NEURON_MANAGEMENT"@,
            Topic::ExchangeRate => "TOPIC_EXCHANGE_RATE"@,
            Topic::NetworkEconomics => "TOPIC_NETWORK_ECONOMICS"@,
            Topic::Governance => "TOPIC_GOVERNANCE"@,
            Topic::NodeAdmin => "TOPIC_NODE_ADMIN"@,
            Topic::ParticipantManagement => "TOPIC_PARTICIPANT_MANAGEMENT"@,
            Topic::SubnetManagement => "TOPIC_SUBNET_MANAGEMENT"@,
            Topic::NetworkCanisterManagement => "TOPIC_NETWORK_CANISTER_MANAGEMENT"@,
            Topic::Kyc => "TOPIC_KYC"@,
            Topic::NodeProviderRewards => "TOPIC_NODE_PROVIDER_REWARDS"@,
            Topic::SnsDecentralizationSale => "TOPIC_SNS_DECENTRALIZATION_SALE"@,
            Topic::SubnetReplicaVersionManagement => "TOPIC_SUBNET_REPLICA_VERSION_MANAGEMENT"@,
            Topic::ReplicaVersionManagement => "TOPIC_REPLICA_VERSION_MANAGEMENT"@,
            Topic::SnsAndCommunityFund => "TOPIC_SNS_AND_COMMUNITY_FUND"@,
        }
    }

    /// Returns `true` if `value` is a variant of `Topic`.
    pub fn is_valid(value: i32) -> (valid: bool)
        ensures
            valid == Self::spec_from_i32(value) is Some,
    {
        0 <= value && value <= 14
    }

    /// Converts an `i32` to a `Topic`, or `None` if `value` is not a valid variant.
    pub fn from_i32(value: i32) -> (variant: Option<Topic>)
        ensures
            variant == Self::spec_from_i32(value),
            variant matches Some(v) ==> v.spec_value() == value,
    {
        match value {
            0 => Some(Topic::Unspecified),
            1 => Some(Topic::NeuronManagement),
            2 => Some(Topic::ExchangeRate),
            3 => Some(Topic::NetworkEconomics),
            4 => Some(Topic::Governance),
            5 => Some(Topic::NodeAdmin),
            6 => Some(Topic::ParticipantManagement),
            7 => Some(Topic::SubnetManagement),
            8 => Some(Topic::NetworkCanisterManagement),
            9 => Some(Topic::Kyc),
            10 => Some(Topic::NodeProviderRewards),
            11 => Some(Topic::SnsDecentralizationSale),
            12 => Some(Topic::SubnetReplicaVersionManagement),
            13 => Some(Topic::ReplicaVersionManagement),
            14 => Some(Topic::SnsAndCommunityFund),
            _ => None,
        }
    }

    /// String value of the enum field names used in the ProtoBuf definition.
    ///
    /// The values are not transformed in any way and thus are considered stable
    /// (if the ProtoBuf definition does not change) and safe for programmatic use.
    pub fn as_str_name(&self) -> (name: &'static str)
        ensures
            name@ == self.str_name(),
    {
        match self {
            Topic::Unspecified => "TOPIC_UNSPECIFIED",
            Topic::NeuronManagement => "TOPIC_NEURON_MANAGEMENT",
            Topic::ExchangeRate => "TOPIC_EXCHANGE_RATE",
            Topic::NetworkEconomics => "TOPIC_NETWORK_ECONOMICS",
            Topic::Governance => "TOPIC_GOVERNANCE",
            Topic::NodeAdmin => "TOPIC_NODE_ADMIN",
            Topic::ParticipantManagement => "TOPIC_PARTICIPANT_MANAGEMENT",
            Topic::SubnetManagement => "TOPIC_SUBNET_MANAGEMENT",
            Topic::NetworkCanisterManagement => "TOPIC_NETWORK_CANISTER_MANAGEMENT",
            Topic::Kyc => "TOPIC_KYC",
            Topic::NodeProviderRewards => "TOPIC_NODE_PROVIDER_REWARDS",
            Topic::SnsDecentralizationSale => "TOPIC_SNS_DECENTRALIZATION_SALE",
            Topic::SubnetReplicaVersionManagement => "TOPIC_SUBNET_REPLICA_VERSION_MANAGEMENT",
            Topic::ReplicaVersionManagement => "TOPIC_REPLICA_VERSION_MANAGEMENT",
            Topic::SnsAndCommunityFund => "TOPIC_SNS_AND_COMMUNITY_FUND",
        }
    }

    /// Every variant is given back by `from_i32` from its own number.
    pub proof fn lemma_value_round_trip(self)
        ensures
            Self::spec_from_i32(self.spec_value()) == Some(self),
    {
    }

    /// A number that `from_i32` accepts is the number of the variant it gives.
    pub proof fn lemma_from_i32_inverse(value: i32)
        ensures
            Self::spec_from_i32(value) matches Some(v) ==> v.spec_value() == value,
            Self::spec_from_i32(value) is None ==> Self::from_i32_or_default(value) == Topic::Unspecified,
    {
    }

    /// No two variants share a name.
    pub proof fn lemma_str_name_injective(self, other: Topic)
        requires
            self.str_name() == other.str_name(),
        ensures
            self == other,
    {
        reveal_strlit("TOPIC_UNSPECIFIED");
        reveal_strlit("TOPIC_NEURON_MANAGEMENT");
        reveal_strlit("TOPIC_EXCHANGE_RATE");
        reveal_strlit("TOPIC_NETWORK_ECONOMICS");
        reveal_strlit("TOPIC_GOVERNANCE");
        reveal_strlit("TOPIC_NODE_ADMIN");
        reveal_strlit("TOPIC_PARTICIPANT_MANAGEMENT");
        reveal_strlit("TOPIC_SUBNET_MANAGEMENT");
        reveal_strlit("TOPIC_NETWORK_CANISTER_MANAGEMENT");
        reveal_strlit("TOPIC_KYC");
        reveal_strlit("TOPIC_NODE_PROVIDER_REWARDS");
        reveal_strlit("TOPIC_SNS_DECENTRALIZATION_SALE");
        reveal_strlit("TOPIC_SUBNET_REPLICA_VERSION_MANAGEMENT");
        reveal_strlit("TOPIC_REPLICA_VERSION_MANAGEMENT");
        reveal_strlit("TOPIC_SNS_AND_COMMUNITY_FUND");
        assert("TOPIC_UNSPECIFIED"@.len() == 17);
        assert("TOPIC_UNSPECIFIED"@[8] == 'S');
        assert("TOPIC_NEURON_MANAGEMENT"@.len() == 23);
        assert("TOPIC_NEURON_MANAGEMENT"@[8] == 'U');
        assert("TOPIC_EXCHANGE_RATE"@.len() == 19);
        assert("TOPIC_EXCHANGE_RATE"@[8] == 'C');
        assert("TOPIC_NETWORK_ECONOMICS"@.len() == 23);
        assert("TOPIC_NETWORK_ECONOMICS"@[8] == 'T');
        assert("TOPIC_GOVERNANCE"@.len() == 16);
        assert("TOPIC_GOVERNANCE"@[8] == 'V');
        assert("TOPIC_NODE_ADMIN"@.len() == 16);
        assert("TOPIC_NODE_ADMIN"@[8] == 'D');
        assert("TOPIC_PARTICIPANT_MANAGEMENT"@.len() == 28);
        assert("TOPIC_PARTICIPANT_MANAGEMENT"@[8] == 'R');
        assert("TOPIC_SUBNET_MANAGEMENT"@.len() == 23);
        assert("TOPIC_SUBNET_MANAGEMENT"@[8] == 'B');
        assert("TOPIC_NETWORK_CANISTER_MANAGEMENT"@.len() == 33);
        assert("TOPIC_NETWORK_CANISTER_MANAGEMENT"@[8] == 'T');
        assert("TOPIC_KYC"@.len() == 9);
        assert("TOPIC_KYC"@[8] == 'C');
        assert("TOPIC_NODE_PROVIDER_REWARDS"@.len() == 27);
        assert("TOPIC_NODE_PROVIDER_REWARDS"@[8] == 'D');
        assert("TOPIC_SNS_DECENTRALIZATION_SALE"@.len() == 31);
        assert("TOPIC_SNS_DECENTRALIZATION_SALE"@[8] == 'S');
        assert("TOPIC_SUBNET_REPLICA_VERSION_MANAGEMENT"@.len() == 39);
        assert("TOPIC_SUBNET_REPLICA_VERSION_MANAGEMENT"@[8] == 'B');
        assert("TOPIC_REPLICA_VERSION_MANAGEMENT"@.len() == 32);
        assert("TOPIC_REPLICA_VERSION_MANAGEMENT"@[8] == 'P');
        assert("TOPIC_SNS_AND_COMMUNITY_FUND"@.len() == 28);
        assert("TOPIC_SNS_AND_COMMUNITY_FUND"@[8] == 'S');
    }
}

impl Default for Topic {
    fn default() -> (variant: Topic)
        ensures
            variant == Topic::Unspecified,
    {
        Topic::Unspecified
    }
}

impl From<Topic> for i32 {
    fn from(value: Topic) -> (number: i32) {
        match value {
            Topic::Unspecified => 0,
            Topic::NeuronManagement => 1,
            Topic::ExchangeRate => 2,
            Topic::NetworkEconomics => 3,
            Topic::Governance => 4,
            Topic::NodeAdmin => 5,
            Topic::ParticipantManagement => 6,
            Topic::SubnetManagement => 7,
            Topic::NetworkCanisterManagement => 8,
            Topic::Kyc => 9,
            Topic::NodeProviderRewards => 10,
            Topic::SnsDecentralizationSale => 11,
            Topic::SubnetReplicaVersionManagement => 12,
            Topic::ReplicaVersionManagement => 13,
            Topic::SnsAndCommunityFund => 14,
        }
    }
}

impl FromSpecImpl<Topic> for i32 {
    open spec fn obeys_from_spec() -> bool {
        true
    }

    open spec fn from_spec(value: Topic) -> i32 {
        value.spec_value()
    }
}

/// Every neuron is in one of three states.
///
/// Note that `Disbursed` is not a state of a neuron, as the neuron is
/// consumed through the act of disbursement (using the method
/// \[Governance::disburse\]).
///
/// See \[neuron::DissolveState\] for detail on how the different states
/// are represented.
#[derive(Copy, Debug, PartialEq, Eq, Structural, Hash, PartialOrd, Ord)]
pub enum NeuronState {
    /// Not a valid state. Required by Protobufs.
    Unspecified,
    /// In this state, the neuron is not dissolving and has a specific
    /// `dissolve_delay`. It accrues `age` by the passage of time and it
    /// can vote if `dissolve_delay` is at least six months. The method
    /// \[Neuron::start_dissolving\] can be called to transfer the neuron
    /// to the `Dissolving` state. The method
    /// \[Neuron::increase_dissolve_delay\] can be used to increase the
    /// dissolve delay without affecting the state or the age of the
    /// neuron.
    NotDissolving,
    /// In this state, the neuron's `dissolve_delay` decreases with the
    /// passage of time. While dissolving, the neuron's age is considered
    /// zero. Eventually it will reach the `Dissolved` state. The method
    /// \[Neuron::stop_dissolving\] can be called to transfer the neuron to
    /// the `NotDissolving` state, and the neuron will start aging again. The
    /// method \[Neuron::increase_dissolve_delay\] can be used to increase
    /// the dissolve delay, but this will not stop the timer or affect
    /// the age of the neuron.
    Dissolving,
    /// In the dissolved state, the neuron's stake can be disbursed using
    /// the \[Governance::disburse\] method. It cannot vote as its
    /// `dissolve_delay` is considered to be zero.
    ///
    /// If the method \[Neuron::increase_dissolve_delay\] is called in this
    /// state, the neuron will no longer be dissolving, with the specified
    /// dissolve delay, and will start aging again.
    ///
    /// Neuron holders have an incentive not to keep neurons in the
    /// 'dissolved' state for a long time: if the holders wants to make
    /// their tokens liquid, they disburse the neuron's stake, and if
    /// they want to earn voting rewards, they increase the dissolve
    /// delay. If these incentives turn out to be insufficient, the NNS
    /// may decide to impose further restrictions on dissolved neurons.
    Dissolved,
    /// The neuron is in spawning state, meaning it's maturity will be
    /// converted to ICP according to <https://wiki.internetcomputer.org/wiki/Maturity_modulation.>
    Spawning,
}

impl Clone for NeuronState {
    fn clone(&self) -> (cloned: Self)
        ensures
            cloned == *self,
    {
        *self
    }
}

impl SameContent for NeuronState {
    open spec fn same_content(&self, other: &Self) -> bool {
        *self == *other
    }
}

impl NeuronState {
    /// The number that the ProtoBuf definition gives to this variant.
    pub open spec fn spec_value(self) -> i32 {
        match self {
            NeuronState::Unspecified => 0,
            NeuronState::NotDissolving => 1,
            NeuronState::Dissolving => 2,
            NeuronState::Dissolved => 3,
            NeuronState::Spawning => 4,
        }
    }

    /// The variant that the ProtoBuf definition numbers `value`, if there is one.
    pub open spec fn spec_from_i32(value: i32) -> Option<NeuronState> {
        match value {
            0 => Some(NeuronState::Unspecified),
            1 => Some(NeuronState::NotDissolving),
            2 => Some(NeuronState::Dissolving),
            3 => Some(NeuronState::Dissolved),
            4 => Some(NeuronState::Spawning),
            _ => None,
        }
    }

    /// The variant numbered `value`, or the default variant where there is none.
    pub open spec fn from_i32_or_default(value: i32) -> NeuronState {
        match Self::spec_from_i32(value) {
            Some(variant) => variant,
            None => NeuronState::Unspecified,
        }
    }

    /// The name of this variant in the ProtoBuf definition.
    pub open spec fn str_name(self) -> Seq<char> {
        match self {
            NeuronState::Unspecified => "NEURON_STATE_UNSPECIFIED"@,
            NeuronState::NotDissolving => "NEURON_STATE_NOT_DISSOLVING"@,
            NeuronState::Dissolving => "NEURON_STATE_DISSOLVING"@,
            NeuronState::Dissolved => "NEURON_STATE_DISSOLVED"@,
            NeuronState::Spawning => "NEURON_STATE_SPAWNING"@,
        }
    }

    /// Returns `true` if `value` is a variant of `NeuronState`.
    pub fn is_valid(value: i32) -> (valid: bool)
        ensures
            valid == Self::spec_from_i32(value) is Some,
    {
        0 <= value && value <= 4
    }

    /// Converts an `i32` to a `NeuronState`, or `None` if `value` is not a valid variant.
    pub fn from_i32(value: i32) -> (variant: Option<NeuronState>)
        ensures
            variant == Self::spec_from_i32(value),
            variant matches Some(v) ==> v.spec_value() == value,
    {
        match value {
            0 => Some(NeuronState::Unspecified),
            1 => Some(NeuronState::NotDissolving),
            2 => Some(NeuronState::Dissolving),
            3 => Some(NeuronState::Dissolved),
            4 => Some(NeuronState::Spawning),
            _ => None,
        }
    }

    /// String value of the enum field names used in the ProtoBuf definition.
    ///
    /// The values are not transformed in any way and thus are considered stable
    /// (if the ProtoBuf definition does not change) and safe for programmatic use.
    pub fn as_str_name(&self) -> (name: &'static str)
        ensures
            name@ == self.str_name(),
    {
        match self {
            NeuronState::Unspecified => "NEURON_STATE_UNSPECIFIED",
            NeuronState::NotDissolving => "NEURON_STATE_NOT_DISSOLVING",
            NeuronState::Dissolving => "NEURON_STATE_DISSOLVING",
            NeuronState::Dissolved => "NEURON_STATE_DISSOLVED",
            NeuronState::Spawning => "NEURON_STATE_SPAWNING",
        }
    }

    /// Every variant is given back by `from_i32` from its own number.
    pub proof fn lemma_value_round_trip(self)
        ensures
            Self::spec_from_i32(self.spec_value()) == Some(self),
    {
    }

    /// A number that `from_i32` accepts is the number of the variant it gives.
    pub proof fn lemma_from_i32_inverse(value: i32)
        ensures
            Self::spec_from_i32(value) matches Some(v) ==> v.spec_value() == value,
            Self::spec_from_i32(value) is None ==> Self::from_i32_or_default(value) == NeuronState::Unspecified,
    {
    }

    /// No two variants share a name.
    pub proof fn lemma_str_name_injective(self, other: NeuronState)
        requires
            self.str_name() == other.str_name(),
        ensures
            self == other,
    {
        reveal_strlit("NEURON_STATE_UNSPECIFIED");
        reveal_strlit("NEURON_STATE_NOT_DISSOLVING");
        reveal_strlit("NEURON_STATE_DISSOLVING");
        reveal_strlit("NEURON_STATE_DISSOLVED");
        reveal_strlit("NEURON_STATE_SPAWNING");
        assert("NEURON_STATE_UNSPECIFIED"@.len() == 24);
        assert("NEURON_STATE_NOT_DISSOLVING"@.len() == 27);
        assert("NEURON_STATE_DISSOLVING"@.len() == 23);
        assert("NEURON_STATE_DISSOLVED"@.len() == 22);
        assert("NEURON_STATE_SPAWNING"@.len() == 21);
    }
}

impl Default for NeuronState {
    fn default() -> (variant: NeuronState)
        ensures
            variant == NeuronState::Unspecified,
    {
        NeuronState::Unspecified
    }
}

impl From<NeuronState> for i32 {
    fn from(value: NeuronState) -> (number: i32) {
        match value {
            NeuronState::Unspecified => 0,
            NeuronState::NotDissolving => 1,
            NeuronState::Dissolving => 2,
            NeuronState::Dissolved => 3,
            NeuronState::Spawning => 4,
        }
    }
}

impl FromSpecImpl<NeuronState> for i32 {
    open spec fn obeys_from_spec() -> bool {
        true
    }

    open spec fn from_spec(value: NeuronState) -> i32 {
        value.spec_value()
    }
}

/// The types of votes the Neuron can issue.
#[derive(Copy, Debug, PartialEq, Eq, Structural, Hash, PartialOrd, Ord)]
pub enum Vote {
    /// This exists because proto3 defaults to the 0 value on enums.
    /// This is not a valid choice, i.e., a vote with this choice will
    /// not be counted.
    Unspecified,
    /// Vote for the proposal to be adopted.
    Yes,
    /// Vote for the proposal to be rejected.
    No,
}

impl Clone for Vote {
    fn clone(&self) -> (cloned: Self)
        ensures
            cloned == *self,
    {
        *self
    }
}

impl SameContent for Vote {
    open spec fn same_content(&self, other: &Self) -> bool {
        *self == *other
    }
}

impl Vote {
    /// The number that the ProtoBuf definition gives to this variant.
    pub open spec fn spec_value(self) -> i32 {
        match self {
            Vote::Unspecified => 0,
            Vote::Yes => 1,
            Vote::No => 2,
        }
    }

    /// The variant that the ProtoBuf definition numbers `value`, if there is one.
    pub open spec fn spec_from_i32(value: i32) -> Option<Vote> {
        match value {
            0 => Some(Vote::Unspecified),
            1 => Some(Vote::Yes),
            2 => Some(Vote::No),
            _ => None,
        }
    }

    /// The variant numbered `value`, or the default variant where there is none.
    pub open spec fn from_i32_or_default(value: i32) -> Vote {
        match Self::spec_from_i32(value) {
            Some(variant) => variant,
            None => Vote::Unspecified,
        }
    }

    /// The name of this variant in the ProtoBuf definition.
    pub open spec fn str_name(self) -> Seq<char> {
        match self {
            Vote::Unspecified => "VOTE_UNSPECIFIED"@,
            Vote::Yes => "VOTE_YES"@,
            Vote::No => "VOTE_NO"@,
        }
    }

    /// Returns `true` if `value` is a variant of `Vote`.
    pub fn is_valid(value: i32) -> (valid: bool)
        ensures
            valid == Self::spec_from_i32(value) is Some,
    {
        0 <= value && value <= 2
    }

    /// Converts an `i32` to a `Vote`, or `None` if `value` is not a valid variant.
    pub fn from_i32(value: i32) -> (variant: Option<Vote>)
        ensures
            variant == Self::spec_from_i32(value),
            variant matches Some(v) ==> v.spec_value() == value,
    {
        match value {
            0 => Some(Vote::Unspecified),
            1 => Some(Vote::Yes),
            2 => Some(Vote::No),
            _ => None,
        }
    }

    /// String value of the enum field names used in the ProtoBuf definition.
    ///
    /// The values are not transformed in any way and thus are considered stable
    /// (if the ProtoBuf definition does not change) and safe for programmatic use.
    pub fn as_str_name(&self) -> (name: &'static str)
        ensures
            name@ == self.str_name(),
    {
        match self {
            Vote::Unspecified => "VOTE_UNSPECIFIED",
            Vote::Yes => "VOTE_YES",
            Vote::No => "VOTE_NO",
        }
    }

    /// Every variant is given back by `from_i32` from its own number.
    pub proof fn lemma_value_round_trip(self)
        ensures
            Self::spec_from_i32(self.spec_value()) == Some(self),
    {
    }

    /// A number that `from_i32` accepts is the number of the variant it gives.
    pub proof fn lemma_from_i32_inverse(value: i32)
        ensures
            Self::spec_from_i32(value) matches Some(v) ==> v.spec_value() == value,
            Self::spec_from_i32(value) is None ==> Self::from_i32_or_default(value) == Vote::Unspecified,
    {
    }

    /// No two variants share a name.
    pub proof fn lemma_str_name_injective(self, other: Vote)
        requires
            self.str_name() == other.str_name(),
        ensures
            self == other,
    {
        reveal_strlit("VOTE_UNSPECIFIED");
        reveal_strlit("VOTE_YES");
        reveal_strlit("VOTE_NO");
        assert("VOTE_UNSPECIFIED"@.len() == 16);
        assert("VOTE_YES"@.len() == 8);
        assert("VOTE_NO"@.len() == 7);
    }
}

impl Default for Vote {
    fn default() -> (variant: Vote)
        ensures
            variant == Vote::Unspecified,
    {
        Vote::Unspecified
    }
}

impl From<Vote> for i32 {
    fn from(value: Vote) -> (number: i32) {
        match value {
            Vote::Unspecified => 0,
            Vote::Yes => 1,
            Vote::No => 2,
        }
    }
}

impl FromSpecImpl<Vote> for i32 {
    open spec fn obeys_from_spec() -> bool {
        true
    }

    open spec fn from_spec(value: Vote) -> i32 {
        value.spec_value()
    }
}

/// List of NNS functions that can be called by proposals.
#[derive(Copy, Debug, PartialEq, Eq, Structural, Hash, PartialOrd, Ord)]
pub enum NnsFunction {
    /// This exists because proto3 defaults to the 0 value on enums.
    Unspecified,
    /// Combine a specified set of nodes, typically drawn from data centers and
    /// operators in such a way as to guarantee their independence, into a new
    /// decentralized subnet.
    /// The execution of this NNS function first initiates a new instance of
    /// the distributed key generation protocol. The transcript of that protocol
    /// is written to a new subnet record in the registry, together with initial
    /// configuration information for the subnet, from where the nodes comprising
    /// the subnet pick it up.
    CreateSubnet,
    /// Add a new node to a subnet. The node cannot be currently assigned to a
    /// subnet.
    /// The execution of this proposal changes an existing subnet record to add
    /// a node. From the perspective of the NNS, this update is a simple update
    /// of the subnet record in the registry.
    AddNodeToSubnet,
    /// A proposal to add a new canister to be installed and executed in the
    /// NNS subnetwork.
    /// The root canister, which controls all canisters on the NNS except for
    /// itself, handles this proposal type. The call also expects the Wasm module
    /// that shall be installed.
    NnsCanisterInstall,
    /// A proposal to upgrade an existing canister in the NNS subnetwork.
    /// This proposal type is executed by the root canister. Beyond upgrading
    /// the Wasm module of the target canister, the proposal can also set the
    /// authorization information and the allocations.
    NnsCanisterUpgrade,
    /// A proposal to bless a new version to which the replicas can be
    /// upgraded.
    /// The proposal registers a replica version (identified by the hash of the
    /// installation image) in the registry. Besides creating a record for that
    /// version, the proposal also appends that version to the list of "blessed
    /// versions" that can be installed on a subnet. By itself, this proposal
    /// does not effect any upgrade.
    BlessReplicaVersion,
    /// Update a subnet's recovery CUP (used to recover subnets that have stalled).
    /// Nodes that find a recovery CUP for their subnet will load that CUP from
    /// the registry and restart the replica from that CUP.
    RecoverSubnet,
    /// Update a subnet's configuration.
    /// This proposal updates the subnet record in the registry, with the changes
    /// being picked up by the nodes on the subnet when they reference the
    /// respective registry version. Subnet configuration comprises protocol
    /// parameters that must be consistent across the subnet (e.g. message sizes).
    UpdateConfigOfSubnet,
    /// Assign an identity to a node operator, such as a funding partner,
    /// associating key information regarding its ownership, the jurisdiction
    /// in which it is located, and other information.
    /// The node operator is stored as a record in the registry. It contains
    /// the remaining node allowance for that node operator, that is the number
    /// of nodes the node operator can still add to the IC. When an additional
    /// node is added by the node operator, the remaining allowance is decreased.
    AssignNoid,
    /// A proposal to upgrade the root canister in the NNS subnetwork.
    /// The proposal is processed by the Lifeline canister, which controls the
    /// root canister. The proposal updates the Wasm module as well as the
    /// authorization settings.
    NnsRootUpgrade,
    /// Update the ICP/XDR conversion rate.
    /// Changes the ICP-to-XDR conversion rate in the governance canister. This
    /// setting affects cycles pricing (as the value of cycles shall be constant
    /// with respect to IMF SDRs) as well as the rewards paid for nodes, which
    /// are expected to be specified in terms of IMF SDRs as well.
    IcpXdrConversionRate,
    /// Update the replica version running on a given subnet.
    /// The proposal changes the replica version that is used on the specified
    /// subnet. The version must be contained in the list of blessed replica
    /// versions. The upgrade is performed when the subnet creates the next
    /// regular CUP.
    UpdateSubnetReplicaVersion,
    /// Clear the provisional whitelist.
    /// The proposal changes the provisional whitelist to the empty list.
    ClearProvisionalWhitelist,
    /// Removes a node from a subnet. The node must be currently assigned to a
    /// subnet.
    /// The execution of this proposal changes an existing subnet record to remove
    /// a node. From the perspective of the NNS, this update is a simple update
    /// of the subnet record in the registry.
    RemoveNodesFromSubnet,
    /// Informs the cycles minting canister that a certain principal is
    /// authorized to use certain subnetworks (from a list). Can also be
    /// used to set the "default" list of subnetworks that principals
    /// without special authorization are allowed to use.
    SetAuthorizedSubnetworks,
    /// Change the Firewall configuration in the registry. (TODO: Remove when IC-1026 is fully integrated)
    SetFirewallConfig,
    /// Change a Node Operator's allowance in the registry.
    UpdateNodeOperatorConfig,
    /// Stop or start an NNS canister.
    StopOrStartNnsCanister,
    /// Remove unassigned nodes from the registry.
    RemoveNodes,
    /// Uninstall code of a canister.
    UninstallCode,
    /// Update the node rewards table.
    UpdateNodeRewardsTable,
    /// Add or remove Data Center records.
    AddOrRemoveDataCenters,
    /// Update the config for all unassigned nodes.
    UpdateUnassignedNodesConfig,
    /// Remove Node Operator from the registry.
    RemoveNodeOperators,
    /// Update the routing table in the registry.
    RerouteCanisterRanges,
    /// Add firewall rules in the registry
    AddFirewallRules,
    /// Remove firewall rules in the registry
    RemoveFirewallRules,
    /// Update firewall rules in the registry
    UpdateFirewallRules,
    /// Insert or update `canister_migrations` entries.
    PrepareCanisterMigration,
    /// Remove `canister_migrations` entries.
    CompleteCanisterMigration,
    /// Add a new SNS canister WASM
    AddSnsWasm,
    /// Change the subnet node membership. In a way, this function combines the separate
    /// functions for adding and removing nodes from the subnet record, but adds the property
    /// of atomic node replacement (node swap) on top.
    ///
    /// The nodes that are being added to the subnet must be currently unassigned.
    /// The nodes that are being removed from the subnet must be currently assigned to the subnet.
    ChangeSubnetMembership,
    /// Updates the available subnet types in the cycles minting canister.
    UpdateSubnetType,
    /// Changes the assignment of subnets to subnet types in the cycles minting
    /// canister.
    ChangeSubnetTypeAssignment,
    /// Update the list of SNS subnet IDs that SNS WASM will deploy SNS instances to.
    UpdateSnsWasmSnsSubnetIds,
    /// Update the SNS-wasm canister's list of allowed principals. This list guards which principals can deploy an SNS.
    UpdateAllowedPrincipals,
    /// A proposal to retire previously elected and unused replica versions.
    /// The specified versions are removed from the registry and the "blessed versions" record.
    /// This ensures that the replica cannot upgrade to these versions anymore.
    RetireReplicaVersion,
    /// Insert custom upgrade path entries into SNS-W for all SNSes, or for an SNS specified by its governance canister ID.
    InsertSnsWasmUpgradePathEntries,
    /// A proposal to update currently elected replica versions, by electing a new version,
    /// and/or unelecting multiple unused versions. The version to elect (identified by the hash of the
    /// installation image) is added to the registry. Besides creating a record for that
    /// version, the proposal also appends that version to the list of elected versions
    /// that can be installed on a subnet. By itself, this proposal
    /// does not effect any upgrade.
    /// The specified versions to unelect are removed from the registry and the elected versions record.
    /// This ensures that the replica cannot upgrade to these versions anymore.
    UpdateElectedReplicaVersions,
    BitcoinSetConfig,
    /// A proposal to add a new version to which the HostOS can be
    /// upgraded.
    /// The proposal registers a HostOS version (identified by the hash of the
    /// installation image) in the registry. By itself, this proposal
    /// does not effect any upgrade.
    AddHostOsVersion,
    /// Update the HostOS version running on a given list of nodes.
    /// The proposal changes the HostOS version that is used on the specified
    /// nodes. The version must be contained in the list of HostOS versions.
    UpdateNodesHostOsVersion,
    /// Uninstall and Install Root with the WASM provided in the function.  If InitArgs are provided
    /// They will be passed to the canister_init function of the WASM provided.
    /// This function is meant as a Break Glass mechanism for when an open call context in
    /// the Root canister is preventing root or another canister from upgrading (in the case of proxied calls).
    HardResetNnsRootToVersion,
}

impl Clone for NnsFunction {
    fn clone(&self) -> (cloned: Self)
        ensures
            cloned == *self,
    {
        *self
    }
}

impl SameContent for NnsFunction {
    open spec fn same_content(&self, other: &Self) -> bool {
        *self == *other
    }
}

impl NnsFunction {
    /// The number that the ProtoBuf definition gives to this variant.
    pub open spec fn spec_value(self) -> i32 {
        match self {
            NnsFunction::Unspecified => 0,
            NnsFunction::CreateSubnet => 1,
            NnsFunction::AddNodeToSubnet => 2,
            NnsFunction::NnsCanisterInstall => 3,
            NnsFunction::NnsCanisterUpgrade => 4,
            NnsFunction::BlessReplicaVersion => 5,
            NnsFunction::RecoverSubnet => 6,
            NnsFunction::UpdateConfigOfSubnet => 7,
            NnsFunction::AssignNoid => 8,
            NnsFunction::NnsRootUpgrade => 9,
            NnsFunction::IcpXdrConversionRate => 10,
            NnsFunction::UpdateSubnetReplicaVersion => 11,
            NnsFunction::ClearProvisionalWhitelist => 12,
            NnsFunction::RemoveNodesFromSubnet => 13,
            NnsFunction::SetAuthorizedSubnetworks => 14,
            NnsFunction::SetFirewallConfig => 15,
            NnsFunction::UpdateNodeOperatorConfig => 16,
            NnsFunction::StopOrStartNnsCanister => 17,
            NnsFunction::RemoveNodes => 18,
            NnsFunction::UninstallCode => 19,
            NnsFunction::UpdateNodeRewardsTable => 20,
            NnsFunction::AddOrRemoveDataCenters => 21,
            NnsFunction::UpdateUnassignedNodesConfig => 22,
            NnsFunction::RemoveNodeOperators => 23,
            NnsFunction::RerouteCanisterRanges => 24,
            NnsFunction::AddFirewallRules => 25,
            NnsFunction::RemoveFirewallRules => 26,
            NnsFunction::UpdateFirewallRules => 27,
            NnsFunction::PrepareCanisterMigration => 28,
            NnsFunction::CompleteCanisterMigration => 29,
            NnsFunction::AddSnsWasm => 30,
            NnsFunction::ChangeSubnetMembership => 31,
            NnsFunction::UpdateSubnetType => 32,
            NnsFunction::ChangeSubnetTypeAssignment => 33,
            NnsFunction::UpdateSnsWasmSnsSubnetIds => 34,
            NnsFunction::UpdateAllowedPrincipals => 35,
            NnsFunction::RetireReplicaVersion => 36,
            NnsFunction::InsertSnsWasmUpgradePathEntries => 37,
            NnsFunction::UpdateElectedReplicaVersions => 38,
            NnsFunction::BitcoinSetConfig => 39,
            NnsFunction::AddHostOsVersion => 40,
            NnsFunction::UpdateNodesHostOsVersion => 41,
            NnsFunction::HardResetNnsRootToVersion => 42,
        }
    }

    /// The variant that the ProtoBuf definition numbers `value`, if there is one.
    pub open spec fn spec_from_i32(value: i32) -> Option<NnsFunction> {
        match value {
            0 => Some(NnsFunction::Unspecified),
            1 => Some(NnsFunction::CreateSubnet),
            2 => Some(NnsFunction::AddNodeToSubnet),
            3 => Some(NnsFunction::NnsCanisterInstall),
            4 => Some(NnsFunction::NnsCanisterUpgrade),
            5 => Some(NnsFunction::BlessReplicaVersion),
            6 => Some(NnsFunction::RecoverSubnet),
            7 => Some(NnsFunction::UpdateConfigOfSubnet),
            8 => Some(NnsFunction::AssignNoid),
            9 => Some(NnsFunction::NnsRootUpgrade),
            10 => Some(NnsFunction::IcpXdrConversionRate),
            11 => Some(NnsFunction::UpdateSubnetReplicaVersion),
            12 => Some(NnsFunction::ClearProvisionalWhitelist),
            13 => Some(NnsFunction::RemoveNodesFromSubnet),
            14 => Some(NnsFunction::SetAuthorizedSubnetworks),
            15 => Some(NnsFunction::SetFirewallConfig),
            16 => Some(NnsFunction::UpdateNodeOperatorConfig),
            17 => Some(NnsFunction::StopOrStartNnsCanister),
            18 => Some(NnsFunction::RemoveNodes),
            19 => Some(NnsFunction::UninstallCode),
            20 => Some(NnsFunction::UpdateNodeRewardsTable),
            21 => Some(NnsFunction::AddOrRemoveDataCenters),
            22 => Some(NnsFunction::UpdateUnassignedNodesConfig),
            23 => Some(NnsFunction::RemoveNodeOperators),
            24 => Some(NnsFunction::RerouteCanisterRanges),
            25 => Some(NnsFunction::AddFirewallRules),
            26 => Some(NnsFunction::RemoveFirewallRules),
            27 => Some(NnsFunction::UpdateFirewallRules),
            28 => Some(NnsFunction::PrepareCanisterMigration),
            29 => Some(NnsFunction::CompleteCanisterMigration),
            30 => Some(NnsFunction::AddSnsWasm),
            31 => Some(NnsFunction::ChangeSubnetMembership),
            32 => Some(NnsFunction::UpdateSubnetType),
            33 => Some(NnsFunction::ChangeSubnetTypeAssignment),
            34 => Some(NnsFunction::UpdateSnsWasmSnsSubnetIds),
            35 => Some(NnsFunction::UpdateAllowedPrincipals),
            36 => Some(NnsFunction::RetireReplicaVersion),
            37 => Some(NnsFunction::InsertSnsWasmUpgradePathEntries),
            38 => Some(NnsFunction::UpdateElectedReplicaVersions),
            39 => Some(NnsFunction::BitcoinSetConfig),
            40 => Some(NnsFunction::AddHostOsVersion),
            41 => Some(NnsFunction::UpdateNodesHostOsVersion),
            42 => Some(NnsFunction::HardResetNnsRootToVersion),
            _ => None,
        }
    }

    /// The variant numbered `value`, or the default variant where there is none.
    pub open spec fn from_i32_or_default(value: i32) -> NnsFunction {
        match Self::spec_from_i32(value) {
            Some(variant) => variant,
            None => NnsFunction::Unspecified,
        }
    }

    /// The name of this variant in the ProtoBuf definition.
    pub open spec fn str_name(self) -> Seq<char> {
        match self {
            NnsFunction::Unspecified => "NNS_FUNCTION_UNSPECIFIED"@,
            NnsFunction::CreateSubnet => "NNS_FUNCTION_CREATE_SUBNET"@,
            NnsFunction::AddNodeToSubnet => "NNS_FUNCTION_ADD_NODE_TO_SUBNET"@,
            NnsFunction::NnsCanisterInstall => "NNS_FUNCTION_NNS_CANISTER_INSTALL"@,
            NnsFunction::NnsCanisterUpgrade => "NNS_FUNCTION_NNS_CANISTER_UPGRADE"@,
            NnsFunction::BlessReplicaVersion => "NNS_FUNCTION_BLESS_REPLICA_VERSION"@,
            NnsFunction::RecoverSubnet => "NNS_FUNCTION_RECOVER_SUBNET"@,
            NnsFunction::UpdateConfigOfSubnet => "NNS_FUNCTION_UPDATE_CONFIG_OF_SUBNET"@,
            NnsFunction::AssignNoid => "NNS_FUNCTION_ASSIGN_NOID"@,
            NnsFunction::NnsRootUpgrade => "NNS_FUNCTION_NNS_ROOT_UPGRADE"@,
            NnsFunction::IcpXdrConversionRate => "NNS_FUNCTION_ICP_XDR_CONVERSION_RATE"@,
            NnsFunction::UpdateSubnetReplicaVersion => "NNS_FUNCTION_UPDATE_SUBNET_REPLICA_VERSION"@,
            NnsFunction::ClearProvisionalWhitelist => "NNS_FUNCTION_CLEAR_PROVISIONAL_WHITELIST"@,
            NnsFunction::RemoveNodesFromSubnet => "NNS_FUNCTION_REMOVE_NODES_FROM_SUBNET"@,
            NnsFunction::SetAuthorizedSubnetworks => "NNS_FUNCTION_SET_AUTHORIZED_SUBNETWORKS"@,
            NnsFunction::SetFirewallConfig => "NNS_FUNCTION_SET_FIREWALL_CONFIG"@,
            NnsFunction::UpdateNodeOperatorConfig => "NNS_FUNCTION_UPDATE_NODE_OPERATOR_CONFIG"@,
            NnsFunction::StopOrStartNnsCanister => "NNS_FUNCTION_STOP_OR_START_NNS_CANISTER"@,
            NnsFunction::RemoveNodes => "NNS_FUNCTION_REMOVE_NODES"@,
            NnsFunction::UninstallCode => "NNS_FUNCTION_UNINSTALL_CODE"@,
            NnsFunction::UpdateNodeRewardsTable => "NNS_FUNCTION_UPDATE_NODE_REWARDS_TABLE"@,
            NnsFunction::AddOrRemoveDataCenters => "NNS_FUNCTION_ADD_OR_REMOVE_DATA_CENTERS"@,
            NnsFunction::UpdateUnassignedNodesConfig => "NNS_FUNCTION_UPDATE_UNASSIGNED_NODES_CONFIG"@,
            NnsFunction::RemoveNodeOperators => "NNS_FUNCTION_REMOVE_NODE_OPERATORS"@,
            NnsFunction::RerouteCanisterRanges => "NNS_FUNCTION_REROUTE_CANISTER_RANGES"@,
            NnsFunction::AddFirewallRules => "NNS_FUNCTION_ADD_FIREWALL_RULES"@,
            NnsFunction::RemoveFirewallRules => "NNS_FUNCTION_REMOVE_FIREWALL_RULES"@,
            NnsFunction::UpdateFirewallRules => "NNS_FUNCTION_UPDATE_FIREWALL_RULES"@,
            NnsFunction::PrepareCanisterMigration => "NNS_FUNCTION_PREPARE_CANISTER_MIGRATION"@,
            NnsFunction::CompleteCanisterMigration => "NNS_FUNCTION_COMPLETE_CANISTER_MIGRATION"@,
            NnsFunction::AddSnsWasm => "NNS_FUNCTION_ADD_SNS_WASM"@,
            NnsFunction::ChangeSubnetMembership => "NNS_FUNCTION_CHANGE_SUBNET_MEMBERSHIP"@,
            NnsFunction::UpdateSubnetType => "NNS_FUNCTION_UPDATE_SUBNET_TYPE"@,
            NnsFunction::ChangeSubnetTypeAssignment => "NNS_FUNCTION_CHANGE_SUBNET_TYPE_ASSIGNMENT"@,
            NnsFunction::UpdateSnsWasmSnsSubnetIds => "NNS_FUNCTION_UPDATE_SNS_WASM_SNS_SUBNET_IDS"@,
            NnsFunction::UpdateAllowedPrincipals => "NNS_FUNCTION_UPDATE_ALLOWED_PRINCIPALS"@,
            NnsFunction::RetireReplicaVersion => "NNS_FUNCTION_RETIRE_REPLICA_VERSION"@,
            NnsFunction::InsertSnsWasmUpgradePathEntries => "NNS_FUNCTION_INSERT_SNS_WASM_UPGRADE_PATH_ENTRIES"@,
            NnsFunction::UpdateElectedReplicaVersions => "NNS_FUNCTION_UPDATE_ELECTED_REPLICA_VERSIONS"@,
            NnsFunction::BitcoinSetConfig => "NNS_FUNCTION_BITCOIN_SET_CONFIG"@,
            NnsFunction::AddHostOsVersion => "NNS_FUNCTION_ADD_HOST_OS_VERSION"@,
            NnsFunction::UpdateNodesHostOsVersion => "NNS_FUNCTION_UPDATE_NODES_HOST_OS_VERSION"@,
            NnsFunction::HardResetNnsRootToVersion => "NNS_FUNCTION_HARD_RESET_NNS_ROOT_TO_VERSION"@,
        }
    }

    /// Returns `true` if `value` is a variant of `NnsFunction`.
    pub fn is_valid(value: i32) -> (valid: bool)
        ensures
            valid == Self::spec_from_i32(value) is Some,
    {
        0 <= value && value <= 42
    }

    /// Converts an `i32` to a `NnsFunction`, or `None` if `value` is not a valid variant.
    pub fn from_i32(value: i32) -> (variant: Option<NnsFunction>)
        ensures
            variant == Self::spec_from_i32(value),
            variant matches Some(v) ==> v.spec_value() == value,
    {
        match value {
            0 => Some(NnsFunction::Unspecified),
            1 => Some(NnsFunction::CreateSubnet),
            2 => Some(NnsFunction::AddNodeToSubnet),
            3 => Some(NnsFunction::NnsCanisterInstall),
            4 => Some(NnsFunction::NnsCanisterUpgrade),
            5 => Some(NnsFunction::BlessReplicaVersion),
            6 => Some(NnsFunction::RecoverSubnet),
            7 => Some(NnsFunction::UpdateConfigOfSubnet),
            8 => Some(NnsFunction::AssignNoid),
            9 => Some(NnsFunction::NnsRootUpgrade),
            10 => Some(NnsFunction::IcpXdrConversionRate),
            11 => Some(NnsFunction::UpdateSubnetReplicaVersion),
            12 => Some(NnsFunction::ClearProvisionalWhitelist),
            13 => Some(NnsFunction::RemoveNodesFromSubnet),
            14 => Some(NnsFunction::SetAuthorizedSubnetworks),
            15 => Some(NnsFunction::SetFirewallConfig),
            16 => Some(NnsFunction::UpdateNodeOperatorConfig),
            17 => Some(NnsFunction::StopOrStartNnsCanister),
            18 => Some(NnsFunction::RemoveNodes),
            19 => Some(NnsFunction::UninstallCode),
            20 => Some(NnsFunction::UpdateNodeRewardsTable),
            21 => Some(NnsFunction::AddOrRemoveDataCenters),
            22 => Some(NnsFunction::UpdateUnassignedNodesConfig),
            23 => Some(NnsFunction::RemoveNodeOperators),
            24 => Some(NnsFunction::RerouteCanisterRanges),
            25 => Some(NnsFunction::AddFirewallRules),
            26 => Some(NnsFunction::RemoveFirewallRules),
            27 => Some(NnsFunction::UpdateFirewallRules),
            28 => Some(NnsFunction::PrepareCanisterMigration),
            29 => Some(NnsFunction::CompleteCanisterMigration),
            30 => Some(NnsFunction::AddSnsWasm),
            31 => Some(NnsFunction::ChangeSubnetMembership),
            32 => Some(NnsFunction::UpdateSubnetType),
            33 => Some(NnsFunction::ChangeSubnetTypeAssignment),
            34 => Some(NnsFunction::UpdateSnsWasmSnsSubnetIds),
            35 => Some(NnsFunction::UpdateAllowedPrincipals),
            36 => Some(NnsFunction::RetireReplicaVersion),
            37 => Some(NnsFunction::InsertSnsWasmUpgradePathEntries),
            38 => Some(NnsFunction::UpdateElectedReplicaVersions),
            39 => Some(NnsFunction::BitcoinSetConfig),
            40 => Some(NnsFunction::AddHostOsVersion),
            41 => Some(NnsFunction::UpdateNodesHostOsVersion),
            42 => Some(NnsFunction::HardResetNnsRootToVersion),
            _ => None,
        }
    }

    /// String value of the enum field names used in the ProtoBuf definition.
    ///
    /// The values are not transformed in any way and thus are considered stable
    /// (if the ProtoBuf definition does not change) and safe for programmatic use.
    pub fn as_str_name(&self) -> (name: &'static str)
        ensures
            name@ == self.str_name(),
    {
        match self {
            NnsFunction::Unspecified => "NNS_FUNCTION_UNSPECIFIED",
            NnsFunction::CreateSubnet => "NNS_FUNCTION_CREATE_SUBNET",
            NnsFunction::AddNodeToSubnet => "NNS_FUNCTION_ADD_NODE_TO_SUBNET",
            NnsFunction::NnsCanisterInstall => "NNS_FUNCTION_NNS_CANISTER_INSTALL",
            NnsFunction::NnsCanisterUpgrade => "NNS_FUNCTION_NNS_CANISTER_UPGRADE",
            NnsFunction::BlessReplicaVersion => "NNS_FUNCTION_BLESS_REPLICA_VERSION",
            NnsFunction::RecoverSubnet => "NNS_FUNCTION_RECOVER_SUBNET",
            NnsFunction::UpdateConfigOfSubnet => "NNS_FUNCTION_UPDATE_CONFIG_OF_SUBNET",
            NnsFunction::AssignNoid => "NNS_FUNCTION_ASSIGN_NOID",
            NnsFunction::NnsRootUpgrade => "NNS_FUNCTION_NNS_ROOT_UPGRADE",
            NnsFunction::IcpXdrConversionRate => "NNS_FUNCTION_ICP_XDR_CONVERSION_RATE",
            NnsFunction::UpdateSubnetReplicaVersion => "NNS_FUNCTION_UPDATE_SUBNET_REPLICA_VERSION",
            NnsFunction::ClearProvisionalWhitelist => "NNS_FUNCTION_CLEAR_PROVISIONAL_WHITELIST",
            NnsFunction::RemoveNodesFromSubnet => "NNS_FUNCTION_REMOVE_NODES_FROM_SUBNET",
            NnsFunction::SetAuthorizedSubnetworks => "NNS_FUNCTION_SET_AUTHORIZED_SUBNETWORKS",
            NnsFunction::SetFirewallConfig => "NNS_FUNCTION_SET_FIREWALL_CONFIG",
            NnsFunction::UpdateNodeOperatorConfig => "NNS_FUNCTION_UPDATE_NODE_OPERATOR_CONFIG",
            NnsFunction::StopOrStartNnsCanister => "NNS_FUNCTION_STOP_OR_START_NNS_CANISTER",
            NnsFunction::RemoveNodes => "NNS_FUNCTION_REMOVE_NODES",
            NnsFunction::UninstallCode => "NNS_FUNCTION_UNINSTALL_CODE",
            NnsFunction::UpdateNodeRewardsTable => "NNS_FUNCTION_UPDATE_NODE_REWARDS_TABLE",
            NnsFunction::AddOrRemoveDataCenters => "NNS_FUNCTION_ADD_OR_REMOVE_DATA_CENTERS",
            NnsFunction::UpdateUnassignedNodesConfig => "NNS_FUNCTION_UPDATE_UNASSIGNED_NODES_CONFIG",
            NnsFunction::RemoveNodeOperators => "NNS_FUNCTION_REMOVE_NODE_OPERATORS",
            NnsFunction::RerouteCanisterRanges => "NNS_FUNCTION_REROUTE_CANISTER_RANGES",
            NnsFunction::AddFirewallRules => "NNS_FUNCTION_ADD_FIREWALL_RULES",
            NnsFunction::RemoveFirewallRules => "NNS_FUNCTION_REMOVE_FIREWALL_RULES",
            NnsFunction::UpdateFirewallRules => "NNS_FUNCTION_UPDATE_FIREWALL_RULES",
            NnsFunction::PrepareCanisterMigration => "NNS_FUNCTION_PREPARE_CANISTER_MIGRATION",
            NnsFunction::CompleteCanisterMigration => "NNS_FUNCTION_COMPLETE_CANISTER_MIGRATION",
            NnsFunction::AddSnsWasm => "NNS_FUNCTION_ADD_SNS_WASM",
            NnsFunction::ChangeSubnetMembership => "NNS_FUNCTION_CHANGE_SUBNET_MEMBERSHIP",
            NnsFunction::UpdateSubnetType => "NNS_FUNCTION_UPDATE_SUBNET_TYPE",
            NnsFunction::ChangeSubnetTypeAssignment => "NNS_FUNCTION_CHANGE_SUBNET_TYPE_ASSIGNMENT",
            NnsFunction::UpdateSnsWasmSnsSubnetIds => "NNS_FUNCTION_UPDATE_SNS_WASM_SNS_SUBNET_IDS",
            NnsFunction::UpdateAllowedPrincipals => "NNS_FUNCTION_UPDATE_ALLOWED_PRINCIPALS",
            NnsFunction::RetireReplicaVersion => "NNS_FUNCTION_RETIRE_REPLICA_VERSION",
            NnsFunction::InsertSnsWasmUpgradePathEntries => "NNS_FUNCTION_INSERT_SNS_WASM_UPGRADE_PATH_ENTRIES",
            NnsFunction::UpdateElectedReplicaVersions => "NNS_FUNCTION_UPDATE_ELECTED_REPLICA_VERSIONS",
            NnsFunction::BitcoinSetConfig => "NNS_FUNCTION_BITCOIN_SET_CONFIG",
            NnsFunction::AddHostOsVersion => "NNS_FUNCTION_ADD_HOST_OS_VERSION",
            NnsFunction::UpdateNodesHostOsVersion => "NNS_FUNCTION_UPDATE_NODES_HOST_OS_VERSION",
            NnsFunction::HardResetNnsRootToVersion => "NNS_FUNCTION_HARD_RESET_NNS_ROOT_TO_VERSION",
        }
    }

    /// Every variant is given back by `from_i32` from its own number.
    pub proof fn lemma_value_round_trip(self)
        ensures
            Self::spec_from_i32(self.spec_value()) == Some(self),
    {
    }

    /// A number that `from_i32` accepts is the number of the variant it gives.
    pub proof fn lemma_from_i32_inverse(value: i32)
        ensures
            Self::spec_from_i32(value) matches Some(v) ==> v.spec_value() == value,
            Self::spec_from_i32(value) is None ==> Self::from_i32_or_default(value) == NnsFunction::Unspecified,
    {
    }

    /// No two variants share a name.
    pub proof fn lemma_str_name_injective(self, other: NnsFunction)
        requires
            self.str_name() == other.str_name(),
        ensures
            self == other,
    {
        reveal_strlit("NNS_FUNCTION_UNSPECIFIED");
        reveal_strlit("NNS_FUNCTION_CREATE_SUBNET");
        reveal_strlit("NNS_FUNCTION_ADD_NODE_TO_SUBNET");
        reveal_strlit("NNS_FUNCTION_NNS_CANISTER_INSTALL");
        reveal_strlit("NNS_FUNCTION_NNS_CANISTER_UPGRADE");
        reveal_strlit("NNS_FUNCTION_BLESS_REPLICA_VERSION");
        reveal_strlit("NNS_FUNCTION_RECOVER_SUBNET");
        reveal_strlit("NNS_FUNCTION_UPDATE_CONFIG_OF_SUBNET");
        reveal_strlit("NNS_FUNCTION_ASSIGN_NOID");
        reveal_strlit("NNS_FUNCTION_NNS_ROOT_UPGRADE");
        reveal_strlit("NNS_FUNCTION_ICP_XDR_CONVERSION_RATE");
        reveal_strlit("NNS_FUNCTION_UPDATE_SUBNET_REPLICA_VERSION");
        reveal_strlit("NNS_FUNCTION_CLEAR_PROVISIONAL_WHITELIST");
        reveal_strlit("NNS_FUNCTION_REMOVE_NODES_FROM_SUBNET");
        reveal_strlit("NNS_FUNCTION_SET_AUTHORIZED_SUBNETWORKS");
        reveal_strlit("NNS_FUNCTION_SET_FIREWALL_CONFIG");
        reveal_strlit("NNS_FUNCTION_UPDATE_NODE_OPERATOR_CONFIG");
        reveal_strlit("NNS_FUNCTION_STOP_OR_START_NNS_CANISTER");
        reveal_strlit("NNS_FUNCTION_REMOVE_NODES");
        reveal_strlit("NNS_FUNCTION_UNINSTALL_CODE");
        reveal_strlit("NNS_FUNCTION_UPDATE_NODE_REWARDS_TABLE");
        reveal_strlit("NNS_FUNCTION_ADD_OR_REMOVE_DATA_CENTERS");
        reveal_strlit("NNS_FUNCTION_UPDATE_UNASSIGNED_NODES_CONFIG");
        reveal_strlit("NNS_FUNCTION_REMOVE_NODE_OPERATORS");
        reveal_strlit("NNS_FUNCTION_REROUTE_CANISTER_RANGES");
        reveal_strlit("NNS_FUNCTION_ADD_FIREWALL_RULES");
        reveal_strlit("NNS_FUNCTION_REMOVE_FIREWALL_RULES");
        reveal_strlit("NNS_FUNCTION_UPDATE_FIREWALL_RULES");
        reveal_strlit("NNS_FUNCTION_PREPARE_CANISTER_MIGRATION");
        reveal_strlit("NNS_FUNCTION_COMPLETE_CANISTER_MIGRATION");
        reveal_strlit("NNS_FUNCTION_ADD_SNS_WASM");
        reveal_strlit("NNS_FUNCTION_CHANGE_SUBNET_MEMBERSHIP");
        reveal_strlit("NNS_FUNCTION_UPDATE_SUBNET_TYPE");
        reveal_strlit("NNS_FUNCTION_CHANGE_SUBNET_TYPE_ASSIGNMENT");
        reveal_strlit("NNS_FUNCTION_UPDATE_SNS_WASM_SNS_SUBNET_IDS");
        reveal_strlit("NNS_FUNCTION_UPDATE_ALLOWED_PRINCIPALS");
        reveal_strlit("NNS_FUNCTION_RETIRE_REPLICA_VERSION");
        reveal_strlit("NNS_FUNCTION_INSERT_SNS_WASM_UPGRADE_PATH_ENTRIES");
        reveal_strlit("NNS_FUNCTION_UPDATE_ELECTED_REPLICA_VERSIONS");
        reveal_strlit("NNS_FUNCTION_BITCOIN_SET_CONFIG");
        reveal_strlit("NNS_FUNCTION_ADD_HOST_OS_VERSION");
        reveal_strlit("NNS_FUNCTION_UPDATE_NODES_HOST_OS_VERSION");
        reveal_strlit("NNS_FUNCTION_HARD_RESET_NNS_ROOT_TO_VERSION");
        assert("NNS_FUNCTION_UNSPECIFIED"@.len() == 24);
        assert("NNS_FUNCTION_UNSPECIFIED"@[13] == 'U');
        assert("NNS_FUNCTION_UNSPECIFIED"@[22] == 'E');
        assert("NNS_FUNCTION_CREATE_SUBNET"@.len() == 26);
        assert("NNS_FUNCTION_CREATE_SUBNET"@[13] == 'C');
        assert("NNS_FUNCTION_CREATE_SUBNET"@[22] == 'B');
        assert("NNS_FUNCTION_ADD_NODE_TO_SUBNET"@.len() == 31);
        assert("NNS_FUNCTION_ADD_NODE_TO_SUBNET"@[13] == 'A');
        assert("NNS_FUNCTION_ADD_NODE_TO_SUBNET"@[22] == 'T');
        assert("NNS_FUNCTION_ADD_NODE_TO_SUBNET"@[26] == 'U');
        assert("NNS_FUNCTION_NNS_CANISTER_INSTALL"@.len() == 33);
        assert("NNS_FUNCTION_NNS_CANISTER_INSTALL"@[13] == 'N');
        assert("NNS_FUNCTION_NNS_CANISTER_INSTALL"@[22] == 'T');
        assert("NNS_FUNCTION_NNS_CANISTER_INSTALL"@[26] == 'I');
        assert("NNS_FUNCTION_NNS_CANISTER_UPGRADE"@.len() == 33);
        assert("NNS_FUNCTION_NNS_CANISTER_UPGRADE"@[13] == 'N');
        assert("NNS_FUNCTION_NNS_CANISTER_UPGRADE"@[22] == 'T');
        assert("NNS_FUNCTION_NNS_CANISTER_UPGRADE"@[26] == 'U');
        assert("NNS_FUNCTION_BLESS_REPLICA_VERSION"@.len() == 34);
        assert("NNS_FUNCTION_BLESS_REPLICA_VERSION"@[13] == 'B');
        assert("NNS_FUNCTION_BLESS_REPLICA_VERSION"@[22] == 'L');
        assert("NNS_FUNCTION_BLESS_REPLICA_VERSION"@[26] == '_');
        assert("NNS_FUNCTION_RECOVER_SUBNET"@.len() == 27);
        assert("NNS_FUNCTION_RECOVER_SUBNET"@[13] == 'R');
        assert("NNS_FUNCTION_RECOVER_SUBNET"@[22] == 'U');
        assert("NNS_FUNCTION_RECOVER_SUBNET"@[26] == 'T');
        assert("NNS_FUNCTION_UPDATE_CONFIG_OF_SUBNET"@.len() == 36);
        assert("NNS_FUNCTION_UPDATE_CONFIG_OF_SUBNET"@[13] == 'U');
        assert("NNS_FUNCTION_UPDATE_CONFIG_OF_SUBNET"@[22] == 'N');
        assert("NNS_FUNCTION_UPDATE_CONFIG_OF_SUBNET"@[26] == '_');
        assert("NNS_FUNCTION_ASSIGN_NOID"@.len() == 24);
        assert("NNS_FUNCTION_ASSIGN_NOID"@[13] == 'A');
        assert("NNS_FUNCTION_ASSIGN_NOID"@[22] == 'I');
        assert("NNS_FUNCTION_NNS_ROOT_UPGRADE"@.len() == 29);
        assert("NNS_FUNCTION_NNS_ROOT_UPGRADE"@[13] == 'N');
        assert("NNS_FUNCTION_NNS_ROOT_UPGRADE"@[22] == 'U');
        assert("NNS_FUNCTION_NNS_ROOT_UPGRADE"@[26] == 'A');
        assert("NNS_FUNCTION_ICP_XDR_CONVERSION_RATE"@.len() == 36);
        assert("NNS_FUNCTION_ICP_XDR_CONVERSION_RATE"@[13] == 'I');
        assert("NNS_FUNCTION_ICP_XDR_CONVERSION_RATE"@[22] == 'O');
        assert("NNS_FUNCTION_ICP_XDR_CONVERSION_RATE"@[26] == 'R');
        assert("NNS_FUNCTION_UPDATE_SUBNET_REPLICA_VERSION"@.len() == 42);
        assert("NNS_FUNCTION_UPDATE_SUBNET_REPLICA_VERSION"@[13] == 'U');
        assert("NNS_FUNCTION_UPDATE_SUBNET_REPLICA_VERSION"@[22] == 'B');
        assert("NNS_FUNCTION_UPDATE_SUBNET_REPLICA_VERSION"@[26] == '_');
        assert("NNS_FUNCTION_CLEAR_PROVISIONAL_WHITELIST"@.len() == 40);
        assert("NNS_FUNCTION_CLEAR_PROVISIONAL_WHITELIST"@[13] == 'C');
        assert("NNS_FUNCTION_CLEAR_PROVISIONAL_WHITELIST"@[22] == 'V');
        assert("NNS_FUNCTION_CLEAR_PROVISIONAL_WHITELIST"@[26] == 'O');
        assert("NNS_FUNCTION_REMOVE_NODES_FROM_SUBNET"@.len() == 37);
        assert("NNS_FUNCTION_REMOVE_NODES_FROM_SUBNET"@[13] == 'R');
        assert("NNS_FUNCTION_REMOVE_NODES_FROM_SUBNET"@[22] == 'D');
        assert("NNS_FUNCTION_REMOVE_NODES_FROM_SUBNET"@[26] == 'F');
        assert("NNS_FUNCTION_SET_AUTHORIZED_SUBNETWORKS"@.len() == 39);
        assert("NNS_FUNCTION_SET_AUTHORIZED_SUBNETWORKS"@[13] == 'S');
        assert("NNS_FUNCTION_SET_AUTHORIZED_SUBNETWORKS"@[22] == 'R');
        assert("NNS_FUNCTION_SET_AUTHORIZED_SUBNETWORKS"@[26] == 'D');
        assert("NNS_FUNCTION_SET_FIREWALL_CONFIG"@.len() == 32);
        assert("NNS_FUNCTION_SET_FIREWALL_CONFIG"@[13] == 'S');
        assert("NNS_FUNCTION_SET_FIREWALL_CONFIG"@[22] == 'A');
        assert("NNS_FUNCTION_SET_FIREWALL_CONFIG"@[26] == 'C');
        assert("NNS_FUNCTION_UPDATE_NODE_OPERATOR_CONFIG"@.len() == 40);
        assert("NNS_FUNCTION_UPDATE_NODE_OPERATOR_CONFIG"@[13] == 'U');
        assert("NNS_FUNCTION_UPDATE_NODE_OPERATOR_CONFIG"@[22] == 'D');
        assert("NNS_FUNCTION_UPDATE_NODE_OPERATOR_CONFIG"@[26] == 'P');
        assert("NNS_FUNCTION_STOP_OR_START_NNS_CANISTER"@.len() == 39);
        assert("NNS_FUNCTION_STOP_OR_START_NNS_CANISTER"@[13] == 'S');
        assert("NNS_FUNCTION_STOP_OR_START_NNS_CANISTER"@[22] == 'T');
        assert("NNS_FUNCTION_STOP_OR_START_NNS_CANISTER"@[26] == '_');
        assert("NNS_FUNCTION_REMOVE_NODES"@.len() == 25);
        assert("NNS_FUNCTION_REMOVE_NODES"@[13] == 'R');
        assert("NNS_FUNCTION_REMOVE_NODES"@[22] == 'D');
        assert("NNS_FUNCTION_UNINSTALL_CODE"@.len() == 27);
        assert("NNS_FUNCTION_UNINSTALL_CODE"@[13] == 'U');
        assert("NNS_FUNCTION_UNINSTALL_CODE"@[22] == '_');
        assert("NNS_FUNCTION_UNINSTALL_CODE"@[26] == 'E');
        assert("NNS_FUNCTION_UPDATE_NODE_REWARDS_TABLE"@.len() == 38);
        assert("NNS_FUNCTION_UPDATE_NODE_REWARDS_TABLE"@[13] == 'U');
        assert("NNS_FUNCTION_UPDATE_NODE_REWARDS_TABLE"@[22] == 'D');
        assert("NNS_FUNCTION_UPDATE_NODE_REWARDS_TABLE"@[26] == 'E');
        assert("NNS_FUNCTION_ADD_OR_REMOVE_DATA_CENTERS"@.len() == 39);
        assert("NNS_FUNCTION_ADD_OR_REMOVE_DATA_CENTERS"@[13] == 'A');
        assert("NNS_FUNCTION_ADD_OR_REMOVE_DATA_CENTERS"@[22] == 'M');
        assert("NNS_FUNCTION_ADD_OR_REMOVE_DATA_CENTERS"@[26] == '_');
        assert("NNS_FUNCTION_UPDATE_UNASSIGNED_NODES_CONFIG"@.len() == 43);
        assert("NNS_FUNCTION_UPDATE_UNASSIGNED_NODES_CONFIG"@[13] == 'U');
        assert("NNS_FUNCTION_UPDATE_UNASSIGNED_NODES_CONFIG"@[22] == 'A');
        assert("NNS_FUNCTION_UPDATE_UNASSIGNED_NODES_CONFIG"@[26] == 'G');
        assert("NNS_FUNCTION_REMOVE_NODE_OPERATORS"@.len() == 34);
        assert("NNS_FUNCTION_REMOVE_NODE_OPERATORS"@[13] == 'R');
        assert("NNS_FUNCTION_REMOVE_NODE_OPERATORS"@[22] == 'D');
        assert("NNS_FUNCTION_REMOVE_NODE_OPERATORS"@[26] == 'P');
        assert("NNS_FUNCTION_REROUTE_CANISTER_RANGES"@.len() == 36);
        assert("NNS_FUNCTION_REROUTE_CANISTER_RANGES"@[13] == 'R');
        assert("NNS_FUNCTION_REROUTE_CANISTER_RANGES"@[22] == 'A');
        assert("NNS_FUNCTION_REROUTE_CANISTER_RANGES"@[26] == 'T');
        assert("NNS_FUNCTION_ADD_FIREWALL_RULES"@.len() == 31);
        assert("NNS_FUNCTION_ADD_FIREWALL_RULES"@[13] == 'A');
        assert("NNS_FUNCTION_ADD_FIREWALL_RULES"@[22] == 'A');
        assert("NNS_FUNCTION_ADD_FIREWALL_RULES"@[26] == 'R');
        assert("NNS_FUNCTION_REMOVE_FIREWALL_RULES"@.len() == 34);
        assert("NNS_FUNCTION_REMOVE_FIREWALL_RULES"@[13] == 'R');
        assert("NNS_FUNCTION_REMOVE_FIREWALL_RULES"@[22] == 'R');
        assert("NNS_FUNCTION_REMOVE_FIREWALL_RULES"@[26] == 'L');
        assert("NNS_FUNCTION_UPDATE_FIREWALL_RULES"@.len() == 34);
        assert("NNS_FUNCTION_UPDATE_FIREWALL_RULES"@[13] == 'U');
        assert("NNS_FUNCTION_UPDATE_FIREWALL_RULES"@[22] == 'R');
        assert("NNS_FUNCTION_UPDATE_FIREWALL_RULES"@[26] == 'L');
        assert("NNS_FUNCTION_PREPARE_CANISTER_MIGRATION"@.len() == 39);
        assert("NNS_FUNCTION_PREPARE_CANISTER_MIGRATION"@[13] == 'P');
        assert("NNS_FUNCTION_PREPARE_CANISTER_MIGRATION"@[22] == 'A');
        assert("NNS_FUNCTION_PREPARE_CANISTER_MIGRATION"@[26] == 'T');
        assert("NNS_FUNCTION_COMPLETE_CANISTER_MIGRATION"@.len() == 40);
        assert("NNS_FUNCTION_COMPLETE_CANISTER_MIGRATION"@[13] == 'C');
        assert("NNS_FUNCTION_COMPLETE_CANISTER_MIGRATION"@[22] == 'C');
        assert("NNS_FUNCTION_COMPLETE_CANISTER_MIGRATION"@[26] == 'S');
        assert("NNS_FUNCTION_ADD_SNS_WASM"@.len() == 25);
        assert("NNS_FUNCTION_ADD_SNS_WASM"@[13] == 'A');
        assert("NNS_FUNCTION_ADD_SNS_WASM"@[22] == 'A');
        assert("NNS_FUNCTION_CHANGE_SUBNET_MEMBERSHIP"@.len() == 37);
        assert("NNS_FUNCTION_CHANGE_SUBNET_MEMBERSHIP"@[13] == 'C');
        assert("NNS_FUNCTION_CHANGE_SUBNET_MEMBERSHIP"@[22] == 'B');
        assert("NNS_FUNCTION_CHANGE_SUBNET_MEMBERSHIP"@[26] == '_');
        assert("NNS_FUNCTION_UPDATE_SUBNET_TYPE"@.len() == 31);
        assert("NNS_FUNCTION_UPDATE_SUBNET_TYPE"@[13] == 'U');
        assert("NNS_FUNCTION_UPDATE_SUBNET_TYPE"@[22] == 'B');
        assert("NNS_FUNCTION_UPDATE_SUBNET_TYPE"@[26] == '_');
        assert("NNS_FUNCTION_CHANGE_SUBNET_TYPE_ASSIGNMENT"@.len() == 42);
        assert("NNS_FUNCTION_CHANGE_SUBNET_TYPE_ASSIGNMENT"@[13] == 'C');
        assert("NNS_FUNCTION_CHANGE_SUBNET_TYPE_ASSIGNMENT"@[22] == 'B');
        assert("NNS_FUNCTION_CHANGE_SUBNET_TYPE_ASSIGNMENT"@[26] == '_');
        assert("NNS_FUNCTION_UPDATE_SNS_WASM_SNS_SUBNET_IDS"@.len() == 43);
        assert("NNS_FUNCTION_UPDATE_SNS_WASM_SNS_SUBNET_IDS"@[13] == 'U');
        assert("NNS_FUNCTION_UPDATE_SNS_WASM_SNS_SUBNET_IDS"@[22] == 'S');
        assert("NNS_FUNCTION_UPDATE_SNS_WASM_SNS_SUBNET_IDS"@[26] == 'S');
        assert("NNS_FUNCTION_UPDATE_ALLOWED_PRINCIPALS"@.len() == 38);
        assert("NNS_FUNCTION_UPDATE_ALLOWED_PRINCIPALS"@[13] == 'U');
        assert("NNS_FUNCTION_UPDATE_ALLOWED_PRINCIPALS"@[22] == 'L');
        assert("NNS_FUNCTION_UPDATE_ALLOWED_PRINCIPALS"@[26] == 'D');
        assert("NNS_FUNCTION_RETIRE_REPLICA_VERSION"@.len() == 35);
        assert("NNS_FUNCTION_RETIRE_REPLICA_VERSION"@[13] == 'R');
        assert("NNS_FUNCTION_RETIRE_REPLICA_VERSION"@[22] == 'P');
        assert("NNS_FUNCTION_RETIRE_REPLICA_VERSION"@[26] == 'A');
        assert("NNS_FUNCTION_INSERT_SNS_WASM_UPGRADE_PATH_ENTRIES"@.len() == 49);
        assert("NNS_FUNCTION_INSERT_SNS_WASM_UPGRADE_PATH_ENTRIES"@[13] == 'I');
        assert("NNS_FUNCTION_INSERT_SNS_WASM_UPGRADE_PATH_ENTRIES"@[22] == 'S');
        assert("NNS_FUNCTION_INSERT_SNS_WASM_UPGRADE_PATH_ENTRIES"@[26] == 'S');
        assert("NNS_FUNCTION_UPDATE_ELECTED_REPLICA_VERSIONS"@.len() == 44);
        assert("NNS_FUNCTION_UPDATE_ELECTED_REPLICA_VERSIONS"@[13] == 'U');
        assert("NNS_FUNCTION_UPDATE_ELECTED_REPLICA_VERSIONS"@[22] == 'E');
        assert("NNS_FUNCTION_UPDATE_ELECTED_REPLICA_VERSIONS"@[26] == 'D');
        assert("NNS_FUNCTION_BITCOIN_SET_CONFIG"@.len() == 31);
        assert("NNS_FUNCTION_BITCOIN_SET_CONFIG"@[13] == 'B');
        assert("NNS_FUNCTION_BITCOIN_SET_CONFIG"@[22] == 'E');
        assert("NNS_FUNCTION_BITCOIN_SET_CONFIG"@[26] == 'O');
        assert("NNS_FUNCTION_ADD_HOST_OS_VERSION"@.len() == 32);
        assert("NNS_FUNCTION_ADD_HOST_OS_VERSION"@[13] == 'A');
        assert("NNS_FUNCTION_ADD_HOST_OS_VERSION"@[22] == 'O');
        assert("NNS_FUNCTION_ADD_HOST_OS_VERSION"@[26] == 'E');
        assert("NNS_FUNCTION_UPDATE_NODES_HOST_OS_VERSION"@.len() == 41);
        assert("NNS_FUNCTION_UPDATE_NODES_HOST_OS_VERSION"@[13] == 'U');
        assert("NNS_FUNCTION_UPDATE_NODES_HOST_OS_VERSION"@[22] == 'D');
        assert("NNS_FUNCTION_UPDATE_NODES_HOST_OS_VERSION"@[26] == 'H');
        assert("NNS_FUNCTION_HARD_RESET_NNS_ROOT_TO_VERSION"@.len() == 43);
        assert("NNS_FUNCTION_HARD_RESET_NNS_ROOT_TO_VERSION"@[13] == 'H');
        assert("NNS_FUNCTION_HARD_RESET_NNS_ROOT_TO_VERSION"@[22] == 'T');
        assert("NNS_FUNCTION_HARD_RESET_NNS_ROOT_TO_VERSION"@[26] == 'S');
    }
}

impl Default for NnsFunction {
    fn default() -> (variant: NnsFunction)
        ensures
            variant == NnsFunction::Unspecified,
    {
        NnsFunction::Unspecified
    }
}

impl From<NnsFunction> for i32 {
    fn from(value: NnsFunction) -> (number: i32) {
        match value {
            NnsFunction::Unspecified => 0,
            NnsFunction::CreateSubnet => 1,
            NnsFunction::AddNodeToSubnet => 2,
            NnsFunction::NnsCanisterInstall => 3,
            NnsFunction::NnsCanisterUpgrade => 4,
            NnsFunction::BlessReplicaVersion => 5,
            NnsFunction::RecoverSubnet => 6,
            NnsFunction::UpdateConfigOfSubnet => 7,
            NnsFunction::AssignNoid => 8,
            NnsFunction::NnsRootUpgrade => 9,
            NnsFunction::IcpXdrConversionRate => 10,
            NnsFunction::UpdateSubnetReplicaVersion => 11,
            NnsFunction::ClearProvisionalWhitelist => 12,
            NnsFunction::RemoveNodesFromSubnet => 13,
            NnsFunction::SetAuthorizedSubnetworks => 14,
            NnsFunction::SetFirewallConfig => 15,
            NnsFunction::UpdateNodeOperatorConfig => 16,
            NnsFunction::StopOrStartNnsCanister => 17,
            NnsFunction::RemoveNodes => 18,
            NnsFunction::UninstallCode => 19,
            NnsFunction::UpdateNodeRewardsTable => 20,
            NnsFunction::AddOrRemoveDataCenters => 21,
            NnsFunction::UpdateUnassignedNodesConfig => 22,
            NnsFunction::RemoveNodeOperators => 23,
            NnsFunction::RerouteCanisterRanges => 24,
            NnsFunction::AddFirewallRules => 25,
            NnsFunction::RemoveFirewallRules => 26,
            NnsFunction::UpdateFirewallRules => 27,
            NnsFunction::PrepareCanisterMigration => 28,
            NnsFunction::CompleteCanisterMigration => 29,
            NnsFunction::AddSnsWasm => 30,
            NnsFunction::ChangeSubnetMembership => 31,
            NnsFunction::UpdateSubnetType => 32,
            NnsFunction::ChangeSubnetTypeAssignment => 33,
            NnsFunction::UpdateSnsWasmSnsSubnetIds => 34,
            NnsFunction::UpdateAllowedPrincipals => 35,
            NnsFunction::RetireReplicaVersion => 36,
            NnsFunction::InsertSnsWasmUpgradePathEntries => 37,
            NnsFunction::UpdateElectedReplicaVersions => 38,
            NnsFunction::BitcoinSetConfig => 39,
            NnsFunction::AddHostOsVersion => 40,
            NnsFunction::UpdateNodesHostOsVersion => 41,
            NnsFunction::HardResetNnsRootToVersion => 42,
        }
    }
}

impl FromSpecImpl<NnsFunction> for i32 {
    open spec fn obeys_from_spec() -> bool {
        true
    }

    open spec fn from_spec(value: NnsFunction) -> i32 {
        value.spec_value()
    }
}

/// The proposal status, with respect to decision making and execution.
/// See also ProposalRewardStatus.
#[derive(Copy, Debug, PartialEq, Eq, Structural, Hash, PartialOrd, Ord)]
pub enum ProposalStatus {
    Unspecified,
    /// A decision (adopt/reject) has yet to be made.
    Open,
    /// The proposal has been rejected.
    Rejected,
    /// The proposal has been adopted (sometimes also called
    /// "accepted"). At this time, either execution as not yet started,
    /// or it has but the outcome is not yet known.
    Adopted,
    /// The proposal was adopted and successfully executed.
    Executed,
    /// The proposal was adopted, but execution failed.
    Failed,
}

impl Clone for ProposalStatus {
    fn clone(&self) -> (cloned: Self)
        ensures
            cloned == *self,
    {
        *self
    }
}

impl SameContent for ProposalStatus {
    open spec fn same_content(&self, other: &Self) -> bool {
        *self == *other
    }
}

impl ProposalStatus {
    /// The number that the ProtoBuf definition gives to this variant.
    pub open spec fn spec_value(self) -> i32 {
        match self {
            ProposalStatus::Unspecified => 0,
            ProposalStatus::Open => 1,
            ProposalStatus::Rejected => 2,
            ProposalStatus::Adopted => 3,
            ProposalStatus::Executed => 4,
            ProposalStatus::Failed => 5,
        }
    }

    /// The variant that the ProtoBuf definition numbers `value`, if there is one.
    pub open spec fn spec_from_i32(value: i32) -> Option<ProposalStatus> {
        match value {
            0 => Some(ProposalStatus::Unspecified),
            1 => Some(ProposalStatus::Open),
            2 => Some(ProposalStatus::Rejected),
            3 => Some(ProposalStatus::Adopted),
            4 => Some(ProposalStatus::Executed),
            5 => Some(ProposalStatus::Failed),
            _ => None,
        }
    }

    /// The variant numbered `value`, or the default variant where there is none.
    pub open spec fn from_i32_or_default(value: i32) -> ProposalStatus {
        match Self::spec_from_i32(value) {
            Some(variant) => variant,
            None => ProposalStatus::Unspecified,
        }
    }

    /// The variants numbered by the valid entries of `values`, in order.
    pub open spec fn valid_values(values: Seq<i32>) -> Seq<ProposalStatus>
        decreases values.len(),
    {
        if values.len() == 0 {
            Seq::empty()
        } else {
            let init = Self::valid_values(values.drop_last());
            match Self::spec_from_i32(values.last()) {
                Some(variant) => init.push(variant),
                None => init,
            }
        }
    }

    /// The name of this variant in the ProtoBuf definition.
    pub open spec fn str_name(self) -> Seq<char> {
        match self {
            ProposalStatus::Unspecified => "PROPOSAL_STATUS_UNSPECIFIED"@,
            ProposalStatus::Open => "PROPOSAL_STATUS_OPEN"@,
            ProposalStatus::Rejected => "PROPOSAL_STATUS_REJECTED"@,
            ProposalStatus::Adopted => "PROPOSAL_STATUS_ADOPTED"@,
            ProposalStatus::Executed => "PROPOSAL_STATUS_EXECUTED"@,
            ProposalStatus::Failed => "PROPOSAL_STATUS_FAILED"@,
        }
    }

    /// Returns `true` if `value` is a variant of `ProposalStatus`.
    pub fn is_valid(value: i32) -> (valid: bool)
        ensures
            valid == Self::spec_from_i32(value) is Some,
    {
        0 <= value && value <= 5
    }

    /// Converts an `i32` to a `ProposalStatus`, or `None` if `value` is not a valid variant.
    pub fn from_i32(value: i32) -> (variant: Option<ProposalStatus>)
        ensures
            variant == Self::spec_from_i32(value),
            variant matches Some(v) ==> v.spec_value() == value,
    {
        match value {
            0 => Some(ProposalStatus::Unspecified),
            1 => Some(ProposalStatus::Open),
            2 => Some(ProposalStatus::Rejected),
            3 => Some(ProposalStatus::Adopted),
            4 => Some(ProposalStatus::Executed),
            5 => Some(ProposalStatus::Failed),
            _ => None,
        }
    }

    /// String value of the enum field names used in the ProtoBuf definition.
    ///
    /// The values are not transformed in any way and thus are considered stable
    /// (if the ProtoBuf definition does not change) and safe for programmatic use.
    pub fn as_str_name(&self) -> (name: &'static str)
        ensures
            name@ == self.str_name(),
    {
        match self {
            ProposalStatus::Unspecified => "PROPOSAL_STATUS_UNSPECIFIED",
            ProposalStatus::Open => "PROPOSAL_STATUS_OPEN",
            ProposalStatus::Rejected => "PROPOSAL_STATUS_REJECTED",
            ProposalStatus::Adopted => "PROPOSAL_STATUS_ADOPTED",
            ProposalStatus::Executed => "PROPOSAL_STATUS_EXECUTED",
            ProposalStatus::Failed => "PROPOSAL_STATUS_FAILED",
        }
    }

    /// Every variant is given back by `from_i32` from its own number.
    pub proof fn lemma_value_round_trip(self)
        ensures
            Self::spec_from_i32(self.spec_value()) == Some(self),
    {
    }

    /// A number that `from_i32` accepts is the number of the variant it gives.
    pub proof fn lemma_from_i32_inverse(value: i32)
        ensures
            Self::spec_from_i32(value) matches Some(v) ==> v.spec_value() == value,
            Self::spec_from_i32(value) is None ==> Self::from_i32_or_default(value) == ProposalStatus::Unspecified,
    {
    }

    /// No two variants share a name.
    pub proof fn lemma_str_name_injective(self, other: ProposalStatus)
        requires
            self.str_name() == other.str_name(),
        ensures
            self == other,
    {
        reveal_strlit("PROPOSAL_STATUS_UNSPECIFIED");
        reveal_strlit("PROPOSAL_STATUS_OPEN");
        reveal_strlit("PROPOSAL_STATUS_REJECTED");
        reveal_strlit("PROPOSAL_STATUS_ADOPTED");
        reveal_strlit("PROPOSAL_STATUS_EXECUTED");
        reveal_strlit("PROPOSAL_STATUS_FAILED");
        assert("PROPOSAL_STATUS_UNSPECIFIED"@.len() == 27);
        assert("PROPOSAL_STATUS_UNSPECIFIED"@[16] == 'U');
        assert("PROPOSAL_STATUS_OPEN"@.len() == 20);
        assert("PROPOSAL_STATUS_OPEN"@[16] == 'O');
        assert("PROPOSAL_STATUS_REJECTED"@.len() == 24);
        assert("PROPOSAL_STATUS_REJECTED"@[16] == 'R');
        assert("PROPOSAL_STATUS_ADOPTED"@.len() == 23);
        assert("PROPOSAL_STATUS_ADOPTED"@[16] == 'A');
        assert("PROPOSAL_STATUS_EXECUTED"@.len() == 24);
        assert("PROPOSAL_STATUS_EXECUTED"@[16] == 'E');
        assert("PROPOSAL_STATUS_FAILED"@.len() == 22);
        assert("PROPOSAL_STATUS_FAILED"@[16] == 'F');
    }
}

impl Default for ProposalStatus {
    fn default() -> (variant: ProposalStatus)
        ensures
            variant == ProposalStatus::Unspecified,
    {
        ProposalStatus::Unspecified
    }
}

impl From<ProposalStatus> for i32 {
    fn from(value: ProposalStatus) -> (number: i32) {
        match value {
            ProposalStatus::Unspecified => 0,
            ProposalStatus::Open => 1,
            ProposalStatus::Rejected => 2,
            ProposalStatus::Adopted => 3,
            ProposalStatus::Executed => 4,
            ProposalStatus::Failed => 5,
        }
    }
}

impl FromSpecImpl<ProposalStatus> for i32 {
    open spec fn obeys_from_spec() -> bool {
        true
    }

    open spec fn from_spec(value: ProposalStatus) -> i32 {
        value.spec_value()
    }
}

/// The proposal status, with respect to reward distribution.
/// See also ProposalStatus.
#[derive(Copy, Debug, PartialEq, Eq, Structural, Hash, PartialOrd, Ord)]
pub enum ProposalRewardStatus {
    Unspecified,
    /// The proposal still accept votes, for the purpose of
    /// vote rewards. This implies nothing on the ProposalStatus.
    AcceptVotes,
    /// The proposal no longer accepts votes. It is due to settle
    /// at the next reward event.
    ReadyToSettle,
    /// The proposal has been taken into account in a reward event.
    Settled,
    /// The proposal is not eligible to be taken into account in a reward event.
    Ineligible,
}

impl Clone for ProposalRewardStatus {
    fn clone(&self) -> (cloned: Self)
        ensures
            cloned == *self,
    {
        *self
    }
}

impl SameContent for ProposalRewardStatus {
    open spec fn same_content(&self, other: &Self) -> bool {
        *self == *other
    }
}

impl ProposalRewardStatus {
    /// The number that the ProtoBuf definition gives to this variant.
    pub open spec fn spec_value(self) -> i32 {
        match self {
            ProposalRewardStatus::Unspecified => 0,
            ProposalRewardStatus::AcceptVotes => 1,
            ProposalRewardStatus::ReadyToSettle => 2,
            ProposalRewardStatus::Settled => 3,
            ProposalRewardStatus::Ineligible => 4,
        }
    }

    /// The variant that the ProtoBuf definition numbers `value`, if there is one.
    pub open spec fn spec_from_i32(value: i32) -> Option<ProposalRewardStatus> {
        match value {
            0 => Some(ProposalRewardStatus::Unspecified),
            1 => Some(ProposalRewardStatus::AcceptVotes),
            2 => Some(ProposalRewardStatus::ReadyToSettle),
            3 => Some(ProposalRewardStatus::Settled),
            4 => Some(ProposalRewardStatus::Ineligible),
            _ => None,
        }
    }

    /// The variant numbered `value`, or the default variant where there is none.
    pub open spec fn from_i32_or_default(value: i32) -> ProposalRewardStatus {
        match Self::spec_from_i32(value) {
            Some(variant) => variant,
            None => ProposalRewardStatus::Unspecified,
        }
    }

    /// The variants numbered by the valid entries of `values`, in order.
    pub open spec fn valid_values(values: Seq<i32>) -> Seq<ProposalRewardStatus>
        decreases values.len(),
    {
        if values.len() == 0 {
            Seq::empty()
        } else {
            let init = Self::valid_values(values.drop_last());
            match Self::spec_from_i32(values.last()) {
                Some(variant) => init.push(variant),
                None => init,
            }
        }
    }

    /// The name of this variant in the ProtoBuf definition.
    pub open spec fn str_name(self) -> Seq<char> {
        match self {
            ProposalRewardStatus::Unspecified => "PROPOSAL_REWARD_STATUS_UNSPECIFIED"@,
            ProposalRewardStatus::AcceptVotes => "PROPOSAL_REWARD_STATUS_ACCEPT_VOTES"@,
            ProposalRewardStatus::ReadyToSettle => "PROPOSAL_REWARD_STATUS_READY_TO_SETTLE"@,
            ProposalRewardStatus::Settled => "PROPOSAL_REWARD_STATUS_SETTLED"@,
            ProposalRewardStatus::Ineligible => "PROPOSAL_REWARD_STATUS_INELIGIBLE"@,
        }
    }

    /// Returns `true` if `value` is a variant of `ProposalRewardStatus`.
    pub fn is_valid(value: i32) -> (valid: bool)
        ensures
            valid == Self::spec_from_i32(value) is Some,
    {
        0 <= value && value <= 4
    }

    /// Converts an `i32` to a `ProposalRewardStatus`, or `None` if `value` is not a valid variant.
    pub fn from_i32(value: i32) -> (variant: Option<ProposalRewardStatus>)
        ensures
            variant == Self::spec_from_i32(value),
            variant matches Some(v) ==> v.spec_value() == value,
    {
        match value {
            0 => Some(ProposalRewardStatus::Unspecified),
            1 => Some(ProposalRewardStatus::AcceptVotes),
            2 => Some(ProposalRewardStatus::ReadyToSettle),
            3 => Some(ProposalRewardStatus::Settled),
            4 => Some(ProposalRewardStatus::Ineligible),
            _ => None,
        }
    }

    /// String value of the enum field names used in the ProtoBuf definition.
    ///
    /// The values are not transformed in any way and thus are considered stable
    /// (if the ProtoBuf definition does not change) and safe for programmatic use.
    pub fn as_str_name(&self) -> (name: &'static str)
        ensures
            name@ == self.str_name(),
    {
        match self {
            ProposalRewardStatus::Unspecified => "PROPOSAL_REWARD_STATUS_UNSPECIFIED",
            ProposalRewardStatus::AcceptVotes => "PROPOSAL_REWARD_STATUS_ACCEPT_VOTES",
            ProposalRewardStatus::ReadyToSettle => "PROPOSAL_REWARD_STATUS_READY_TO_SETTLE",
            ProposalRewardStatus::Settled => "PROPOSAL_REWARD_STATUS_SETTLED",
            ProposalRewardStatus::Ineligible => "PROPOSAL_REWARD_STATUS_INELIGIBLE",
        }
    }

    /// Every variant is given back by `from_i32` from its own number.
    pub proof fn lemma_value_round_trip(self)
        ensures
            Self::spec_from_i32(self.spec_value()) == Some(self),
    {
    }

    /// A number that `from_i32` accepts is the number of the variant it gives.
    pub proof fn lemma_from_i32_inverse(value: i32)
        ensures
            Self::spec_from_i32(value) matches Some(v) ==> v.spec_value() == value,
            Self::spec_from_i32(value) is None ==> Self::from_i32_or_default(value) == ProposalRewardStatus::Unspecified,
    {
    }

    /// No two variants share a name.
    pub proof fn lemma_str_name_injective(self, other: ProposalRewardStatus)
        requires
            self.str_name() == other.str_name(),
        ensures
            self == other,
    {
        reveal_strlit("PROPOSAL_REWARD_STATUS_UNSPECIFIED");
        reveal_strlit("PROPOSAL_REWARD_STATUS_ACCEPT_VOTES");
        reveal_strlit("PROPOSAL_REWARD_STATUS_READY_TO_SETTLE");
        reveal_strlit("PROPOSAL_REWARD_STATUS_SETTLED");
        reveal_strlit("PROPOSAL_REWARD_STATUS_INELIGIBLE");
        assert("PROPOSAL_REWARD_STATUS_UNSPECIFIED"@.len() == 34);
        assert("PROPOSAL_REWARD_STATUS_ACCEPT_VOTES"@.len() == 35);
        assert("PROPOSAL_REWARD_STATUS_READY_TO_SETTLE"@.len() == 38);
        assert("PROPOSAL_REWARD_STATUS_SETTLED"@.len() == 30);
        assert("PROPOSAL_REWARD_STATUS_INELIGIBLE"@.len() == 33);
    }
}

impl Default for ProposalRewardStatus {
    fn default() -> (variant: ProposalRewardStatus)
        ensures
            variant == ProposalRewardStatus::Unspecified,
    {
        ProposalRewardStatus::Unspecified
    }
}

impl From<ProposalRewardStatus> for i32 {
    fn from(value: ProposalRewardStatus) -> (number: i32) {
        match value {
            ProposalRewardStatus::Unspecified => 0,
            ProposalRewardStatus::AcceptVotes => 1,
            ProposalRewardStatus::ReadyToSettle => 2,
            ProposalRewardStatus::Settled => 3,
            ProposalRewardStatus::Ineligible => 4,
        }
    }
}

impl FromSpecImpl<ProposalRewardStatus> for i32 {
    open spec fn obeys_from_spec() -> bool {
        true
    }

    open spec fn from_spec(value: ProposalRewardStatus) -> i32 {
        value.spec_value()
    }
}


impl Topic {
    /// The `.proto` definition of `Topic`: each variant has the wire number
    /// and the name given there, and exactly the numbers `0..=14` name a
    /// variant.
    pub proof fn lemma_proto_definition()
        ensures
            Topic::Unspecified.spec_value() == 0,
            Topic::Unspecified.str_name() == "TOPIC_UNSPECIFIED"@,
            Topic::NeuronManagement.spec_value() == 1,
            Topic::NeuronManagement.str_name() == "TOPIC_NEURON_MANAGEMENT"@,
            Topic::ExchangeRate.spec_value() == 2,
            Topic::ExchangeRate.str_name() == "TOPIC_EXCHANGE_RATE"@,
            Topic::NetworkEconomics.spec_value() == 3,
            Topic::NetworkEconomics.str_name() == "TOPIC_NETWORK_ECONOMICS"@,
            Topic::Governance.spec_value() == 4,
            Topic::Governance.str_name() == "TOPIC_GOVERNANCE"@,
            Topic::NodeAdmin.spec_value() == 5,
            Topic::NodeAdmin.str_name() == "TOPIC_NODE_ADMIN"@,
            Topic::ParticipantManagement.spec_value() == 6,
            Topic::ParticipantManagement.str_name() == "TOPIC_PARTICIPANT_MANAGEMENT"@,
            Topic::SubnetManagement.spec_value() == 7,
            Topic::SubnetManagement.str_name() == "TOPIC_SUBNET_MANAGEMENT"@,
            Topic::NetworkCanisterManagement.spec_value() == 8,
            Topic::NetworkCanisterManagement.str_name() == "TOPIC_NETWORK_CANISTER_MANAGEMENT"@,
            Topic::Kyc.spec_value() == 9,
            Topic::Kyc.str_name() == "TOPIC_KYC"@,
            Topic::NodeProviderRewards.spec_value() == 10,
            Topic::NodeProviderRewards.str_name() == "TOPIC_NODE_PROVIDER_REWARDS"@,
            Topic::SnsDecentralizationSale.spec_value() == 11,
            Topic::SnsDecentralizationSale.str_name() == "TOPIC_SNS_DECENTRALIZATION_SALE"@,
            Topic::SubnetReplicaVersionManagement.spec_value() == 12,
            Topic::SubnetReplicaVersionManagement.str_name() == "TOPIC_SUBNET_REPLICA_VERSION_MANAGEMENT"@,
            Topic::ReplicaVersionManagement.spec_value() == 13,
            Topic::ReplicaVersionManagement.str_name() == "TOPIC_REPLICA_VERSION_MANAGEMENT"@,
            Topic::SnsAndCommunityFund.spec_value() == 14,
            Topic::SnsAndCommunityFund.str_name() == "TOPIC_SNS_AND_COMMUNITY_FUND"@,
            forall|value: i32| #[trigger] Self::spec_from_i32(value) is Some <==> 0 <= value <= 14,
    {
    }
}

impl NeuronState {
    /// The `.proto` definition of `NeuronState`: each variant has the wire number
    /// and the name given there, and exactly the numbers `0..=4` name a
    /// variant.
    pub proof fn lemma_proto_definition()
        ensures
            NeuronState::Unspecified.spec_value() == 0,
            NeuronState::Unspecified.str_name() == "NEURON_STATE_UNSPECIFIED"@,
            NeuronState::NotDissolving.spec_value() == 1,
            NeuronState::NotDissolving.str_name() == "NEURON_STATE_NOT_DISSOLVING"@,
            NeuronState::Dissolving.spec_value() == 2,
            NeuronState::Dissolving.str_name() == "NEURON_STATE_DISSOLVING"@,
            NeuronState::Dissolved.spec_value() == 3,
            NeuronState::Dissolved.str_name() == "NEURON_STATE_DISSOLVED"@,
            NeuronState::Spawning.spec_value() == 4,
            NeuronState::Spawning.str_name() == "NEURON_STATE_SPAWNING"@,
            forall|value: i32| #[trigger] Self::spec_from_i32(value) is Some <==> 0 <= value <= 4,
    {
    }
}

impl Vote {
    /// The `.proto` definition of `Vote`: each variant has the wire number
    /// and the name given there, and exactly the numbers `0..=2` name a
    /// variant.
    pub proof fn lemma_proto_definition()
        ensures
            Vote::Unspecified.spec_value() == 0,
            Vote::Unspecified.str_name() == "VOTE_UNSPECIFIED"@,
            Vote::Yes.spec_value() == 1,
            Vote::Yes.str_name() == "VOTE_YES"@,
            Vote::No.spec_value() == 2,
            Vote::No.str_name() == "VOTE_NO"@,
            forall|value: i32| #[trigger] Self::spec_from_i32(value) is Some <==> 0 <= value <= 2,
    {
    }
}

impl NnsFunction {
    /// The `.proto` definition of `NnsFunction`: each variant has the wire number
    /// and the name given there, and exactly the numbers `0..=42` name a
    /// variant.
    pub proof fn lemma_proto_definition()
        ensures
            NnsFunction::Unspecified.spec_value() == 0,
            NnsFunction::Unspecified.str_name() == "NNS_FUNCTION_UNSPECIFIED"@,
            NnsFunction::CreateSubnet.spec_value() == 1,
            NnsFunction::CreateSubnet.str_name() == "NNS_FUNCTION_CREATE_SUBNET"@,
            NnsFunction::AddNodeToSubnet.spec_value() == 2,
            NnsFunction::AddNodeToSubnet.str_name() == "NNS_FUNCTION_ADD_NODE_TO_SUBNET"@,
            NnsFunction::NnsCanisterInstall.spec_value() == 3,
            NnsFunction::NnsCanisterInstall.str_name() == "NNS_FUNCTION_NNS_CANISTER_INSTALL"@,
            NnsFunction::NnsCanisterUpgrade.spec_value() == 4,
            NnsFunction::NnsCanisterUpgrade.str_name() == "NNS_FUNCTION_NNS_CANISTER_UPGRADE"@,
            NnsFunction::BlessReplicaVersion.spec_value() == 5,
            NnsFunction::BlessReplicaVersion.str_name() == "NNS_FUNCTION_BLESS_REPLICA_VERSION"@,
            NnsFunction::RecoverSubnet.spec_value() == 6,
            NnsFunction::RecoverSubnet.str_name() == "NNS_FUNCTION_RECOVER_SUBNET"@,
            NnsFunction::UpdateConfigOfSubnet.spec_value() == 7,
            NnsFunction::UpdateConfigOfSubnet.str_name() == "NNS_FUNCTION_UPDATE_CONFIG_OF_SUBNET"@,
            NnsFunction::AssignNoid.spec_value() == 8,
            NnsFunction::AssignNoid.str_name() == "NNS_FUNCTION_ASSIGN_NOID"@,
            NnsFunction::NnsRootUpgrade.spec_value() == 9,
            NnsFunction::NnsRootUpgrade.str_name() == "NNS_FUNCTION_NNS_ROOT_UPGRADE"@,
            NnsFunction::IcpXdrConversionRate.spec_value() == 10,
            NnsFunction::IcpXdrConversionRate.str_name() == "NNS_FUNCTION_ICP_XDR_CONVERSION_RATE"@,
            NnsFunction::UpdateSubnetReplicaVersion.spec_value() == 11,
            NnsFunction::UpdateSubnetReplicaVersion.str_name() == "NNS_FUNCTION_UPDATE_SUBNET_REPLICA_VERSION"@,
            NnsFunction::ClearProvisionalWhitelist.spec_value() == 12,
            NnsFunction::ClearProvisionalWhitelist.str_name() == "NNS_FUNCTION_CLEAR_PROVISIONAL_WHITELIST"@,
            NnsFunction::RemoveNodesFromSubnet.spec_value() == 13,
            NnsFunction::RemoveNodesFromSubnet.str_name() == "NNS_FUNCTION_REMOVE_NODES_FROM_SUBNET"@,
            NnsFunction::SetAuthorizedSubnetworks.spec_value() == 14,
            NnsFunction::SetAuthorizedSubnetworks.str_name() == "NNS_FUNCTION_SET_AUTHORIZED_SUBNETWORKS"@,
            NnsFunction::SetFirewallConfig.spec_value() == 15,
            NnsFunction::SetFirewallConfig.str_name() == "NNS_FUNCTION_SET_FIREWALL_CONFIG"@,
            NnsFunction::UpdateNodeOperatorConfig.spec_value() == 16,
            NnsFunction::UpdateNodeOperatorConfig.str_name() == "NNS_FUNCTION_UPDATE_NODE_OPERATOR_CONFIG"@,
            NnsFunction::StopOrStartNnsCanister.spec_value() == 17,
            NnsFunction::StopOrStartNnsCanister.str_name() == "NNS_FUNCTION_STOP_OR_START_NNS_CANISTER"@,
            NnsFunction::RemoveNodes.spec_value() == 18,
            NnsFunction::RemoveNodes.str_name() == "NNS_FUNCTION_REMOVE_NODES"@,
            NnsFunction::UninstallCode.spec_value() == 19,
            NnsFunction::UninstallCode.str_name() == "NNS_FUNCTION_UNINSTALL_CODE"@,
            NnsFunction::UpdateNodeRewardsTable.spec_value() == 20,
            NnsFunction::UpdateNodeRewardsTable.str_name() == "NNS_FUNCTION_UPDATE_NODE_REWARDS_TABLE"@,
            NnsFunction::AddOrRemoveDataCenters.spec_value() == 21,
            NnsFunction::AddOrRemoveDataCenters.str_name() == "NNS_FUNCTION_ADD_OR_REMOVE_DATA_CENTERS"@,
            NnsFunction::UpdateUnassignedNodesConfig.spec_value() == 22,
            NnsFunction::UpdateUnassignedNodesConfig.str_name() == "NNS_FUNCTION_UPDATE_UNASSIGNED_NODES_CONFIG"@,
            NnsFunction::RemoveNodeOperators.spec_value() == 23,
            NnsFunction::RemoveNodeOperators.str_name() == "NNS_FUNCTION_REMOVE_NODE_OPERATORS"@,
            NnsFunction::RerouteCanisterRanges.spec_value() == 24,
            NnsFunction::RerouteCanisterRanges.str_name() == "NNS_FUNCTION_REROUTE_CANISTER_RANGES"@,
            NnsFunction::AddFirewallRules.spec_value() == 25,
            NnsFunction::AddFirewallRules.str_name() == "NNS_FUNCTION_ADD_FIREWALL_RULES"@,
            NnsFunction::RemoveFirewallRules.spec_value() == 26,
            NnsFunction::RemoveFirewallRules.str_name() == "NNS_FUNCTION_REMOVE_FIREWALL_RULES"@,
            NnsFunction::UpdateFirewallRules.spec_value() == 27,
            NnsFunction::UpdateFirewallRules.str_name() == "NNS_FUNCTION_UPDATE_FIREWALL_RULES"@,
            NnsFunction::PrepareCanisterMigration.spec_value() == 28,
            NnsFunction::PrepareCanisterMigration.str_name() == "NNS_FUNCTION_PREPARE_CANISTER_MIGRATION"@,
            NnsFunction::CompleteCanisterMigration.spec_value() == 29,
            NnsFunction::CompleteCanisterMigration.str_name() == "NNS_FUNCTION_COMPLETE_CANISTER_MIGRATION"@,
            NnsFunction::AddSnsWasm.spec_value() == 30,
            NnsFunction::AddSnsWasm.str_name() == "NNS_FUNCTION_ADD_SNS_WASM"@,
            NnsFunction::ChangeSubnetMembership.spec_value() == 31,
            NnsFunction::ChangeSubnetMembership.str_name() == "NNS_FUNCTION_CHANGE_SUBNET_MEMBERSHIP"@,
            NnsFunction::UpdateSubnetType.spec_value() == 32,
            NnsFunction::UpdateSubnetType.str_name() == "NNS_FUNCTION_UPDATE_SUBNET_TYPE"@,
            NnsFunction::ChangeSubnetTypeAssignment.spec_value() == 33,
            NnsFunction::ChangeSubnetTypeAssignment.str_name() == "NNS_FUNCTION_CHANGE_SUBNET_TYPE_ASSIGNMENT"@,
            NnsFunction::UpdateSnsWasmSnsSubnetIds.spec_value() == 34,
            NnsFunction::UpdateSnsWasmSnsSubnetIds.str_name() == "NNS_FUNCTION_UPDATE_SNS_WASM_SNS_SUBNET_IDS"@,
            NnsFunction::UpdateAllowedPrincipals.spec_value() == 35,
            NnsFunction::UpdateAllowedPrincipals.str_name() == "NNS_FUNCTION_UPDATE_ALLOWED_PRINCIPALS"@,
            NnsFunction::RetireReplicaVersion.spec_value() == 36,
            NnsFunction::RetireReplicaVersion.str_name() == "NNS_FUNCTION_RETIRE_REPLICA_VERSION"@,
            NnsFunction::InsertSnsWasmUpgradePathEntries.spec_value() == 37,
            NnsFunction::InsertSnsWasmUpgradePathEntries.str_name() == "NNS_FUNCTION_INSERT_SNS_WASM_UPGRADE_PATH_ENTRIES"@,
            NnsFunction::UpdateElectedReplicaVersions.spec_value() == 38,
            NnsFunction::UpdateElectedReplicaVersions.str_name() == "NNS_FUNCTION_UPDATE_ELECTED_REPLICA_VERSIONS"@,
            NnsFunction::BitcoinSetConfig.spec_value() == 39,
            NnsFunction::BitcoinSetConfig.str_name() == "NNS_FUNCTION_BITCOIN_SET_CONFIG"@,
            NnsFunction::AddHostOsVersion.spec_value() == 40,
            NnsFunction::AddHostOsVersion.str_name() == "NNS_FUNCTION_ADD_HOST_OS_VERSION"@,
            NnsFunction::UpdateNodesHostOsVersion.spec_value() == 41,
            NnsFunction::UpdateNodesHostOsVersion.str_name() == "NNS_FUNCTION_UPDATE_NODES_HOST_OS_VERSION"@,
            NnsFunction::HardResetNnsRootToVersion.spec_value() == 42,
            NnsFunction::HardResetNnsRootToVersion.str_name() == "NNS_FUNCTION_HARD_RESET_NNS_ROOT_TO_VERSION"@,
            forall|value: i32| #[trigger] Self::spec_from_i32(value) is Some <==> 0 <= value <= 42,
    {
    }
}

impl ProposalStatus {
    /// The `.proto` definition of `ProposalStatus`: each variant has the wire number
    /// and the name given there, and exactly the numbers `0..=5` name a
    /// variant.
    pub proof fn lemma_proto_definition()
        ensures
            ProposalStatus::Unspecified.spec_value() == 0,
            ProposalStatus::Unspecified.str_name() == "PROPOSAL_STATUS_UNSPECIFIED"@,
            ProposalStatus::Open.spec_value() == 1,
            ProposalStatus::Open.str_name() == "PROPOSAL_STATUS_OPEN"@,
            ProposalStatus::Rejected.spec_value() == 2,
            ProposalStatus::Rejected.str_name() == "PROPOSAL_STATUS_REJECTED"@,
            ProposalStatus::Adopted.spec_value() == 3,
            ProposalStatus::Adopted.str_name() == "PROPOSAL_STATUS_ADOPTED"@,
            ProposalStatus::Executed.spec_value() == 4,
            ProposalStatus::Executed.str_name() == "PROPOSAL_STATUS_EXECUTED"@,
            ProposalStatus::Failed.spec_value() == 5,
            ProposalStatus::Failed.str_name() == "PROPOSAL_STATUS_FAILED"@,
            forall|value: i32| #[trigger] Self::spec_from_i32(value) is Some <==> 0 <= value <= 5,
    {
    }
}

impl ProposalRewardStatus {
    /// The `.proto` definition of `ProposalRewardStatus`: each variant has the wire number
    /// and the name given there, and exactly the numbers `0..=4` name a
    /// variant.
    pub proof fn lemma_proto_definition()
        ensures
            ProposalRewardStatus::Unspecified.spec_value() == 0,
            ProposalRewardStatus::Unspecified.str_name() == "PROPOSAL_REWARD_STATUS_UNSPECIFIED"@,
            ProposalRewardStatus::AcceptVotes.spec_value() == 1,
            ProposalRewardStatus::AcceptVotes.str_name() == "PROPOSAL_REWARD_STATUS_ACCEPT_VOTES"@,
            ProposalRewardStatus::ReadyToSettle.spec_value() == 2,
            ProposalRewardStatus::ReadyToSettle.str_name() == "PROPOSAL_REWARD_STATUS_READY_TO_SETTLE"@,
            ProposalRewardStatus::Settled.spec_value() == 3,
            ProposalRewardStatus::Settled.str_name() == "PROPOSAL_REWARD_STATUS_SETTLED"@,
            ProposalRewardStatus::Ineligible.spec_value() == 4,
            ProposalRewardStatus::Ineligible.str_name() == "PROPOSAL_REWARD_STATUS_INELIGIBLE"@,
            forall|value: i32| #[trigger] Self::spec_from_i32(value) is Some <==> 0 <= value <= 4,
    {
    }
}

} // verus!
