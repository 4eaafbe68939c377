use vstd::prelude::*;
use crate::content::SameContent;

/// Nested message and enum types in `InitialTokenDistribution`.
pub mod initial_token_distribution;
/// Nested message and enum types in `SwapParameters`.
pub mod swap_parameters;
/// Nested message and enum types in `GovernanceParameters`.
pub mod governance_parameters;

verus! {

// Initial SNS Tokens and Neurons
// ------------------------------
#[derive(Debug, PartialEq, Default)]
pub struct InitialTokenDistribution {
    pub developer_distribution: Option<initial_token_distribution::DeveloperDistribution>,
    pub treasury_distribution: Option<initial_token_distribution::TreasuryDistribution>,
    pub swap_distribution: Option<initial_token_distribution::SwapDistribution>,
}

impl Clone for InitialTokenDistribution {
    fn clone(&self) -> (cloned: Self)
        ensures
            cloned.same_content(self),
    {
        InitialTokenDistribution {
            developer_distribution: self.developer_distribution.clone(),
            treasury_distribution: self.treasury_distribution.clone(),
            swap_distribution: self.swap_distribution.clone(),
        }
    }
}

impl SameContent for InitialTokenDistribution {
    open spec fn same_content(&self, other: &Self) -> bool {
        &&& self.developer_distribution.same_content(&other.developer_distribution)
        &&& self.treasury_distribution.same_content(&other.treasury_distribution)
        &&& self.swap_distribution.same_content(&other.swap_distribution)
    }
}

// Canister Initialization
// ------------------------
#[derive(Debug, PartialEq, Default)]
pub struct SwapParameters {
    pub minimum_participants: Option<u64>,
    pub minimum_icp: Option<crate::nervous_system::Tokens>,
    pub maximum_icp: Option<crate::nervous_system::Tokens>,
    pub minimum_participant_icp: Option<crate::nervous_system::Tokens>,
    pub maximum_participant_icp: Option<crate::nervous_system::Tokens>,
    pub neuron_basket_construction_parameters: Option<swap_parameters::NeuronBasketConstructionParameters>,
    pub confirmation_text: Option<String>,
    pub restricted_countries: Option<crate::nervous_system::Countries>,
    /// The swap occurs at a specific time of day, in UTC.
    /// It will happen the first time start_time occurs that's at least 24h after
    /// the proposal is adopted.
    pub start_time: Option<crate::nervous_system::GlobalTimeOfDay>,
    pub duration: Option<crate::nervous_system::Duration>,
}

impl Clone for SwapParameters {
    fn clone(&self) -> (cloned: Self)
        ensures
            cloned.same_content(self),
    {
        SwapParameters {
            minimum_participants: self.minimum_participants.clone(),
            minimum_icp: self.minimum_icp.clone(),
            maximum_icp: self.maximum_icp.clone(),
            minimum_participant_icp: self.minimum_participant_icp.clone(),
            maximum_participant_icp: self.maximum_participant_icp.clone(),
            neuron_basket_construction_parameters: self.neuron_basket_construction_parameters.clone(),
            confirmation_text: self.confirmation_text.clone(),
            restricted_countries: self.restricted_countries.clone(),
            start_time: self.start_time.clone(),
            duration: self.duration.clone(),
        }
    }
}

impl SameContent for SwapParameters {
    open spec fn same_content(&self, other: &Self) -> bool {
        &&& self.minimum_participants.same_content(&other.minimum_participants)
        &&& self.minimum_icp.same_content(&other.minimum_icp)
        &&& self.maximum_icp.same_content(&other.maximum_icp)
        &&& self.minimum_participant_icp.same_content(&other.minimum_participant_icp)
        &&& self.maximum_participant_icp.same_content(&other.maximum_participant_icp)
        &&& self.neuron_basket_construction_parameters.same_content(&other.neuron_basket_construction_parameters)
        &&& self.confirmation_text.same_content(&other.confirmation_text)
        &&& self.restricted_countries.same_content(&other.restricted_countries)
        &&& self.start_time.same_content(&other.start_time)
        &&& self.duration.same_content(&other.duration)
    }
}

impl SwapParameters {
    /// Returns the value of `minimum_participants`, or the default value if `minimum_participants` is unset.
    pub fn minimum_participants(&self) -> (value: u64)
        ensures
            value == (match self.minimum_participants {
                Some(field) => field,
                None => 0,
            }),
    {
        match self.minimum_participants {
            Some(field) => field,
            None => 0,
        }
    }

    /// Returns the value of `confirmation_text`, or the default value if `confirmation_text` is unset.
    pub fn confirmation_text(&self) -> (value: &str)
        ensures
            value@ == (match self.confirmation_text {
                Some(text) => text@,
                None => Seq::empty(),
            }),
    {
        proof {
            reveal_strlit("");
        }
        match &self.confirmation_text {
            Some(text) => text.as_str(),
            None => "",
        }
    }
}

#[derive(Debug, PartialEq, Default)]
pub struct LedgerParameters {
    pub transaction_fee: Option<crate::nervous_system::Tokens>,
    pub token_name: Option<String>,
    pub token_symbol: Option<String>,
    pub token_logo: Option<crate::nervous_system::Image>,
}

impl Clone for LedgerParameters {
    fn clone(&self) -> (cloned: Self)
        ensures
            cloned.same_content(self),
    {
        LedgerParameters {
            transaction_fee: self.transaction_fee.clone(),
            token_name: self.token_name.clone(),
            token_symbol: self.token_symbol.clone(),
            token_logo: self.token_logo.clone(),
        }
    }
}

impl SameContent for LedgerParameters {
    open spec fn same_content(&self, other: &Self) -> bool {
        &&& self.transaction_fee.same_content(&other.transaction_fee)
        &&& self.token_name.same_content(&other.token_name)
        &&& self.token_symbol.same_content(&other.token_symbol)
        &&& self.token_logo.same_content(&other.token_logo)
    }
}

impl LedgerParameters {
    /// Returns the value of `token_name`, or the default value if `token_name` is unset.
    pub fn token_name(&self) -> (value: &str)
        ensures
            value@ == (match self.token_name {
                Some(text) => text@,
                None => Seq::empty(),
            }),
    {
        proof {
            reveal_strlit("");
        }
        match &self.token_name {
            Some(text) => text.as_str(),
            None => "",
        }
    }

    /// Returns the value of `token_symbol`, or the default value if `token_symbol` is unset.
    pub fn token_symbol(&self) -> (value: &str)
        ensures
            value@ == (match self.token_symbol {
                Some(text) => text@,
                None => Seq::empty(),
            }),
    {
        proof {
            reveal_strlit("");
        }
        match &self.token_symbol {
            Some(text) => text.as_str(),
            None => "",
        }
    }
}

/// Proposal Parameters
/// -------------------
#[derive(Debug, PartialEq, Default)]
pub struct GovernanceParameters {
    pub proposal_rejection_fee: Option<crate::nervous_system::Tokens>,
    pub proposal_initial_voting_period: Option<crate::nervous_system::Duration>,
    pub proposal_wait_for_quiet_deadline_increase: Option<crate::nervous_system::Duration>,
    // Neuron Parameters
    // -----------------
    pub neuron_minimum_stake: Option<crate::nervous_system::Tokens>,
    pub neuron_minimum_dissolve_delay_to_vote: Option<crate::nervous_system::Duration>,
    pub neuron_maximum_dissolve_delay: Option<crate::nervous_system::Duration>,
    pub neuron_maximum_dissolve_delay_bonus: Option<crate::nervous_system::Percentage>,
    pub neuron_maximum_age_for_age_bonus: Option<crate::nervous_system::Duration>,
    pub neuron_maximum_age_bonus: Option<crate::nervous_system::Percentage>,
    pub voting_reward_parameters: Option<governance_parameters::VotingRewardParameters>,
}

impl Clone for GovernanceParameters {
    fn clone(&self) -> (cloned: Self)
        ensures
            cloned.same_content(self),
    {
        GovernanceParameters {
            proposal_rejection_fee: self.proposal_rejection_fee.clone(),
            proposal_initial_voting_period: self.proposal_initial_voting_period.clone(),
            proposal_wait_for_quiet_deadline_increase: self.proposal_wait_for_quiet_deadline_increase.clone(),
            neuron_minimum_stake: self.neuron_minimum_stake.clone(),
            neuron_minimum_dissolve_delay_to_vote: self.neuron_minimum_dissolve_delay_to_vote.clone(),
            neuron_maximum_dissolve_delay: self.neuron_maximum_dissolve_delay.clone(),
            neuron_maximum_dissolve_delay_bonus: self.neuron_maximum_dissolve_delay_bonus.clone(),
            neuron_maximum_age_for_age_bonus: self.neuron_maximum_age_for_age_bonus.clone(),
            neuron_maximum_age_bonus: self.neuron_maximum_age_bonus.clone(),
            voting_reward_parameters: self.voting_reward_parameters.clone(),
        }
    }
}

impl SameContent for GovernanceParameters {
    open spec fn same_content(&self, other: &Self) -> bool {
        &&& self.proposal_rejection_fee.same_content(&other.proposal_rejection_fee)
        &&& self.proposal_initial_voting_period.same_content(&other.proposal_initial_voting_period)
        &&& self.proposal_wait_for_quiet_deadline_increase.same_content(&other.proposal_wait_for_quiet_deadline_increase)
        &&& self.neuron_minimum_stake.same_content(&other.neuron_minimum_stake)
        &&& self.neuron_minimum_dissolve_delay_to_vote.same_content(&other.neuron_minimum_dissolve_delay_to_vote)
        &&& self.neuron_maximum_dissolve_delay.same_content(&other.neuron_maximum_dissolve_delay)
        &&& self.neuron_maximum_dissolve_delay_bonus.same_content(&other.neuron_maximum_dissolve_delay_bonus)
        &&& self.neuron_maximum_age_for_age_bonus.same_content(&other.neuron_maximum_age_for_age_bonus)
        &&& self.neuron_maximum_age_bonus.same_content(&other.neuron_maximum_age_bonus)
        &&& self.voting_reward_parameters.same_content(&other.voting_reward_parameters)
    }
}

} // verus!
