use vstd::prelude::*;
use crate::content::SameContent;

verus! {

#[derive(Debug, PartialEq)]
pub enum Change {
    ToAdd(super::NodeProvider),
    ToRemove(super::NodeProvider),
}

impl Clone for Change {
    fn clone(&self) -> (cloned: Self)
        ensures
            cloned.same_content(self),
    {
        match self {
            Change::ToAdd(value) => Change::ToAdd(value.clone()),
            Change::ToRemove(value) => Change::ToRemove(value.clone()),
        }
    }
}

impl SameContent for Change {
    open spec fn same_content(&self, other: &Self) -> bool {
        match (self, other) {
            (Change::ToAdd(a), Change::ToAdd(b)) => a.same_content(b),
            (Change::ToRemove(a), Change::ToRemove(b)) => a.same_content(b),
            _ => false,
        }
    }
}

} // verus!
