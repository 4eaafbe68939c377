use vstd::prelude::*;
use crate::content::SameContent;

verus! {

#[derive(Debug, PartialEq, Default)]
pub struct MemoAndController {
    pub memo: u64,
    pub controller: Option<crate::ids::PrincipalId>,
}

impl Clone for MemoAndController {
    fn clone(&self) -> (cloned: Self)
        ensures
            cloned.same_content(self),
    {
        MemoAndController {
            memo: self.memo,
            controller: self.controller.clone(),
        }
    }
}

impl SameContent for MemoAndController {
    open spec fn same_content(&self, other: &Self) -> bool {
        &&& self.memo.same_content(&other.memo)
        &&& self.controller.same_content(&other.controller)
    }
}

#[derive(Debug, PartialEq)]
pub enum By {
    /// DEPRECATED: Use MemoAndController and omit the controller.
    Memo(u64),
    /// Claim or refresh a neuron, by providing the memo used in the
    /// staking transfer and 'controller' as the principal id used to
    /// calculate the subaccount to which the transfer was made. If
    /// 'controller' is omitted, the principal id of the caller is
    /// used.
    MemoAndController(MemoAndController),
    /// This just serves as a tag to indicate that the neuron should be
    /// refreshed by it's id or subaccount. This does not work to claim
    /// new neurons.
    NeuronIdOrSubaccount(super::super::Empty),
}

impl Clone for By {
    fn clone(&self) -> (cloned: Self)
        ensures
            cloned.same_content(self),
    {
        match self {
            By::Memo(value) => By::Memo(*value),
            By::MemoAndController(value) => By::MemoAndController(value.clone()),
            By::NeuronIdOrSubaccount(value) => By::NeuronIdOrSubaccount(value.clone()),
        }
    }
}

impl SameContent for By {
    open spec fn same_content(&self, other: &Self) -> bool {
        match (self, other) {
            (By::Memo(a), By::Memo(b)) => a.same_content(b),
            (By::MemoAndController(a), By::MemoAndController(b)) => a.same_content(b),
            (By::NeuronIdOrSubaccount(a), By::NeuronIdOrSubaccount(b)) => a.same_content(b),
            _ => false,
        }
    }
}

} // verus!
