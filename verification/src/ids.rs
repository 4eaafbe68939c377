//! Identifiers that the governance messages refer to.
use vstd::prelude::*;
use crate::content::SameContent;
use candid::Principal;

verus! {

/// The principal type of the Internet Computer, as the `candid` crate defines it.
#[verifier::external_type_specification]
#[verifier::external_body]
pub struct ExPrincipal(Principal);

/// The identity of a principal: a user, a canister or a node.
#[derive(Copy, Debug, PartialEq, Eq, Hash, PartialOrd, Ord)]
pub struct PrincipalId(pub Principal);

impl Clone for PrincipalId {
    fn clone(&self) -> (cloned: Self)
        ensures
            cloned == *self,
    {
        *self
    }
}

impl SameContent for PrincipalId {
    open spec fn same_content(&self, other: &Self) -> bool {
        *self == *other
    }
}

/// The id of a neuron.
#[derive(Copy, Debug, PartialEq, Eq, Structural, Hash, PartialOrd, Ord, Default)]
pub struct NeuronId {
    pub id: u64,
}

impl Clone for NeuronId {
    fn clone(&self) -> (cloned: Self)
        ensures
            cloned == *self,
    {
        *self
    }
}

impl SameContent for NeuronId {
    open spec fn same_content(&self, other: &Self) -> bool {
        *self == *other
    }
}

/// The id of a proposal.
#[derive(Copy, Debug, PartialEq, Eq, Structural, Hash, PartialOrd, Ord, Default)]
pub struct ProposalId {
    pub id: u64,
}

impl Clone for ProposalId {
    fn clone(&self) -> (cloned: Self)
        ensures
            cloned == *self,
    {
        *self
    }
}

impl SameContent for ProposalId {
    open spec fn same_content(&self, other: &Self) -> bool {
        *self == *other
    }
}

/// An account of the ICP ledger, given by the hash that identifies it.
#[derive(Debug, PartialEq, Eq, Hash, Default)]
pub struct AccountIdentifier {
    pub hash: Vec<u8>,
}

impl Clone for AccountIdentifier {
    fn clone(&self) -> (cloned: Self)
        ensures
            cloned.same_content(self),
    {
        AccountIdentifier {
            hash: self.hash.clone(),
        }
    }
}

impl SameContent for AccountIdentifier {
    open spec fn same_content(&self, other: &Self) -> bool {
        &&& self.hash.same_content(&other.hash)
    }
}

} // verus!
