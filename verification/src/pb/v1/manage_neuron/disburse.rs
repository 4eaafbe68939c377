use vstd::prelude::*;
use crate::content::SameContent;

verus! {

#[derive(Debug, PartialEq, Default)]
pub struct Amount {
    pub e8s: u64,
}

impl Clone for Amount {
    fn clone(&self) -> (cloned: Self)
        ensures
            cloned.same_content(self),
    {
        Amount {
            e8s: self.e8s,
        }
    }
}

impl SameContent for Amount {
    open spec fn same_content(&self, other: &Self) -> bool {
        &&& self.e8s.same_content(&other.e8s)
    }
}

} // verus!
