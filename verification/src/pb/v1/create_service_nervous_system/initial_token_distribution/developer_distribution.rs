use vstd::prelude::*;
use crate::content::SameContent;

verus! {

#[derive(Debug, PartialEq, Default)]
pub struct NeuronDistribution {
    pub controller: Option<crate::ids::PrincipalId>,
    pub dissolve_delay: Option<crate::nervous_system::Duration>,
    pub memo: Option<u64>,
    pub stake: Option<crate::nervous_system::Tokens>,
    pub vesting_period: Option<crate::nervous_system::Duration>,
}

impl Clone for NeuronDistribution {
    fn clone(&self) -> (cloned: Self)
        ensures
            cloned.same_content(self),
    {
        NeuronDistribution {
            controller: self.controller.clone(),
            dissolve_delay: self.dissolve_delay.clone(),
            memo: self.memo.clone(),
            stake: self.stake.clone(),
            vesting_period: self.vesting_period.clone(),
        }
    }
}

impl SameContent for NeuronDistribution {
    open spec fn same_content(&self, other: &Self) -> bool {
        &&& self.controller.same_content(&other.controller)
        &&& self.dissolve_delay.same_content(&other.dissolve_delay)
        &&& self.memo.same_content(&other.memo)
        &&& self.stake.same_content(&other.stake)
        &&& self.vesting_period.same_content(&other.vesting_period)
    }
}

impl NeuronDistribution {
    /// Returns the value of `memo`, or the default value if `memo` is unset.
    pub fn memo(&self) -> (value: u64)
        ensures
            value == (match self.memo {
                Some(field) => field,
                None => 0,
            }),
    {
        match self.memo {
            Some(field) => field,
            None => 0,
        }
    }
}

} // verus!
