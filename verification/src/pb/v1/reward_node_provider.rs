use vstd::prelude::*;
use crate::content::SameContent;

verus! {

/// This message specifies how to create a new neuron on behalf of
/// the node provider.
///
/// - The controller of the new neuron is the node provider's
///    principal.
///
/// - The account is chosen at random.
///
/// - The stake of the new neuron is `amount_e8s`.
///
/// - `dissolve_delay_seconds` is as specified in the proto.
///
/// - `kyc_verified` is set to true, as node providers are
///    (implicitly) KYC'ed.
///
/// - `not_for_profit` is set to false.
///
/// - All other values are set as for other neurons: timestamp is
///    now, following is set up per default, maturity is 0, neuron fee
///    is 0.
#[derive(Debug, PartialEq, Default)]
pub struct RewardToNeuron {
    pub dissolve_delay_seconds: u64,
}

impl Clone for RewardToNeuron {
    fn clone(&self) -> (cloned: Self)
        ensures
            cloned.same_content(self),
    {
        RewardToNeuron {
            dissolve_delay_seconds: self.dissolve_delay_seconds,
        }
    }
}

impl SameContent for RewardToNeuron {
    open spec fn same_content(&self, other: &Self) -> bool {
        &&& self.dissolve_delay_seconds.same_content(&other.dissolve_delay_seconds)
    }
}

#[derive(Debug, PartialEq, Default)]
pub struct RewardToAccount {
    pub to_account: Option<crate::ids::AccountIdentifier>,
}

impl Clone for RewardToAccount {
    fn clone(&self) -> (cloned: Self)
        ensures
            cloned.same_content(self),
    {
        RewardToAccount {
            to_account: self.to_account.clone(),
        }
    }
}

impl SameContent for RewardToAccount {
    open spec fn same_content(&self, other: &Self) -> bool {
        &&& self.to_account.same_content(&other.to_account)
    }
}

#[derive(Debug, PartialEq)]
pub enum RewardMode {
    /// If this is specified, executing this proposal will create a
    /// neuron instead of directly minting ICP into the node provider's
    /// account.
    RewardToNeuron(RewardToNeuron),
    /// If this is specified, executing this proposal will mint to the
    /// specified account.
    RewardToAccount(RewardToAccount),
}

impl Clone for RewardMode {
    fn clone(&self) -> (cloned: Self)
        ensures
            cloned.same_content(self),
    {
        match self {
            RewardMode::RewardToNeuron(value) => RewardMode::RewardToNeuron(value.clone()),
            RewardMode::RewardToAccount(value) => RewardMode::RewardToAccount(value.clone()),
        }
    }
}

impl SameContent for RewardMode {
    open spec fn same_content(&self, other: &Self) -> bool {
        match (self, other) {
            (RewardMode::RewardToNeuron(a), RewardMode::RewardToNeuron(b)) => a.same_content(b),
            (RewardMode::RewardToAccount(a), RewardMode::RewardToAccount(b)) => a.same_content(b),
            _ => false,
        }
    }
}

} // verus!
