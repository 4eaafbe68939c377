use vstd::prelude::*;
use crate::content::SameContent;

verus! {

#[derive(Debug, PartialEq, Default)]
pub struct NeuronBasketConstructionParameters {
    pub count: Option<u64>,
    pub dissolve_delay_interval: Option<crate::nervous_system::Duration>,
}

impl Clone for NeuronBasketConstructionParameters {
    fn clone(&self) -> (cloned: Self)
        ensures
            cloned.same_content(self),
    {
        NeuronBasketConstructionParameters {
            count: self.count.clone(),
            dissolve_delay_interval: self.dissolve_delay_interval.clone(),
        }
    }
}

impl SameContent for NeuronBasketConstructionParameters {
    open spec fn same_content(&self, other: &Self) -> bool {
        &&& self.count.same_content(&other.count)
        &&& self.dissolve_delay_interval.same_content(&other.dissolve_delay_interval)
    }
}

impl NeuronBasketConstructionParameters {
    /// Returns the value of `count`, or the default value if `count` is unset.
    pub fn count(&self) -> (value: u64)
        ensures
            value == (match self.count {
                Some(field) => field,
                None => 0,
            }),
    {
        match self.count {
            Some(field) => field,
            None => 0,
        }
    }
}

} // verus!
