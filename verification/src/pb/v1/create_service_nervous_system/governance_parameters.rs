use vstd::prelude::*;
use crate::content::SameContent;

verus! {

// Voting Reward(s) Parameters
// ---------------------------
#[derive(Debug, PartialEq, Default)]
pub struct VotingRewardParameters {
    pub initial_reward_rate: Option<crate::nervous_system::Percentage>,
    pub final_reward_rate: Option<crate::nervous_system::Percentage>,
    pub reward_rate_transition_duration: Option<crate::nervous_system::Duration>,
}

impl Clone for VotingRewardParameters {
    fn clone(&self) -> (cloned: Self)
        ensures
            cloned.same_content(self),
    {
        VotingRewardParameters {
            initial_reward_rate: self.initial_reward_rate.clone(),
            final_reward_rate: self.final_reward_rate.clone(),
            reward_rate_transition_duration: self.reward_rate_transition_duration.clone(),
        }
    }
}

impl SameContent for VotingRewardParameters {
    open spec fn same_content(&self, other: &Self) -> bool {
        &&& self.initial_reward_rate.same_content(&other.initial_reward_rate)
        &&& self.final_reward_rate.same_content(&other.final_reward_rate)
        &&& self.reward_rate_transition_duration.same_content(&other.reward_rate_transition_duration)
    }
}

} // verus!
