use vstd::prelude::*;
use crate::content::SameContent;

verus! {

/// When this happens, ICP needs to be minted, and sent to the SNS governance
/// canister's main account on the ICP Ledger. As with Aborted, the amount of
/// ICP that needs to be minted can be deduced from the ProposalData's
/// cf_participants field.
#[derive(Debug, PartialEq, Default)]
pub struct Committed {
    /// This is where the minted ICP will be sent. In principal, this could be
    /// fetched using the swap canister's get_state method.
    pub sns_governance_canister_id: Option<crate::ids::PrincipalId>,
}

impl Clone for Committed {
    fn clone(&self) -> (cloned: Self)
        ensures
            cloned.same_content(self),
    {
        Committed {
            sns_governance_canister_id: self.sns_governance_canister_id.clone(),
        }
    }
}

impl SameContent for Committed {
    open spec fn same_content(&self, other: &Self) -> bool {
        &&& self.sns_governance_canister_id.same_content(&other.sns_governance_canister_id)
    }
}

/// When this happens, maturity needs to be restored to CF neurons. The amounts
/// to be refunded can be found in the ProposalData's cf_participants field.
#[derive(Debug, PartialEq, Default)]
pub struct Aborted {}

impl Clone for Aborted {
    fn clone(&self) -> (cloned: Self)
        ensures
            cloned.same_content(self),
    {
        Aborted {}
    }
}

impl SameContent for Aborted {
    open spec fn same_content(&self, other: &Self) -> bool {
        true
    }
}

/// Each of the possibilities here corresponds to one of two ways that a swap
/// can terminate. See also sns_swap_pb::Lifecycle::is_terminal.
#[derive(Debug, PartialEq)]
pub enum Result {
    Committed(Committed),
    Aborted(Aborted),
}

impl Clone for Result {
    fn clone(&self) -> (cloned: Self)
        ensures
            cloned.same_content(self),
    {
        match self {
            Result::Committed(value) => Result::Committed(value.clone()),
            Result::Aborted(value) => Result::Aborted(value.clone()),
        }
    }
}

impl SameContent for Result {
    open spec fn same_content(&self, other: &Self) -> bool {
        match (self, other) {
            (Result::Committed(a), Result::Committed(b)) => a.same_content(b),
            (Result::Aborted(a), Result::Aborted(b)) => a.same_content(b),
            _ => false,
        }
    }
}

} // verus!
