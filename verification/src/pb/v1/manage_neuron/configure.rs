use vstd::prelude::*;
use crate::content::SameContent;

verus! {

#[derive(Debug, PartialEq)]
pub enum Operation {
    IncreaseDissolveDelay(super::IncreaseDissolveDelay),
    StartDissolving(super::StartDissolving),
    StopDissolving(super::StopDissolving),
    AddHotKey(super::AddHotKey),
    RemoveHotKey(super::RemoveHotKey),
    SetDissolveTimestamp(super::SetDissolveTimestamp),
    JoinCommunityFund(super::JoinCommunityFund),
    LeaveCommunityFund(super::LeaveCommunityFund),
    ChangeAutoStakeMaturity(super::ChangeAutoStakeMaturity),
}

impl Clone for Operation {
    fn clone(&self) -> (cloned: Self)
        ensures
            cloned.same_content(self),
    {
        match self {
            Operation::IncreaseDissolveDelay(value) => Operation::IncreaseDissolveDelay(value.clone()),
            Operation::StartDissolving(value) => Operation::StartDissolving(value.clone()),
            Operation::StopDissolving(value) => Operation::StopDissolving(value.clone()),
            Operation::AddHotKey(value) => Operation::AddHotKey(value.clone()),
            Operation::RemoveHotKey(value) => Operation::RemoveHotKey(value.clone()),
            Operation::SetDissolveTimestamp(value) => Operation::SetDissolveTimestamp(value.clone()),
            Operation::JoinCommunityFund(value) => Operation::JoinCommunityFund(value.clone()),
            Operation::LeaveCommunityFund(value) => Operation::LeaveCommunityFund(value.clone()),
            Operation::ChangeAutoStakeMaturity(value) => Operation::ChangeAutoStakeMaturity(value.clone()),
        }
    }
}

impl SameContent for Operation {
    open spec fn same_content(&self, other: &Self) -> bool {
        match (self, other) {
            (Operation::IncreaseDissolveDelay(a), Operation::IncreaseDissolveDelay(b)) => a.same_content(b),
            (Operation::StartDissolving(a), Operation::StartDissolving(b)) => a.same_content(b),
            (Operation::StopDissolving(a), Operation::StopDissolving(b)) => a.same_content(b),
            (Operation::AddHotKey(a), Operation::AddHotKey(b)) => a.same_content(b),
            (Operation::RemoveHotKey(a), Operation::RemoveHotKey(b)) => a.same_content(b),
            (Operation::SetDissolveTimestamp(a), Operation::SetDissolveTimestamp(b)) => a.same_content(b),
            (Operation::JoinCommunityFund(a), Operation::JoinCommunityFund(b)) => a.same_content(b),
            (Operation::LeaveCommunityFund(a), Operation::LeaveCommunityFund(b)) => a.same_content(b),
            (Operation::ChangeAutoStakeMaturity(a), Operation::ChangeAutoStakeMaturity(b)) => a.same_content(b),
            _ => false,
        }
    }
}

} // verus!
