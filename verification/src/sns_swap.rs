//! Messages of the swap canister of a service nervous system that the
//! governance messages carry.
use vstd::prelude::*;
use crate::content::SameContent;

verus! {

/// A window of time, in seconds since the Unix epoch.
#[derive(Copy, Debug, PartialEq, Eq, Structural, Default)]
pub struct TimeWindow {
    pub start_timestamp_seconds: u64,
    pub end_timestamp_seconds: u64,
}

impl Clone for TimeWindow {
    fn clone(&self) -> (cloned: Self)
        ensures
            cloned == *self,
    {
        *self
    }
}

impl SameContent for TimeWindow {
    open spec fn same_content(&self, other: &Self) -> bool {
        *self == *other
    }
}

/// The request to set the window of time in which a swap is open.
#[derive(Copy, Debug, PartialEq, Eq, Default)]
pub struct SetOpenTimeWindowRequest {
    pub open_time_window: Option<TimeWindow>,
}

impl Clone for SetOpenTimeWindowRequest {
    fn clone(&self) -> (cloned: Self)
        ensures
            cloned == *self,
    {
        *self
    }
}

impl SameContent for SetOpenTimeWindowRequest {
    open spec fn same_content(&self, other: &Self) -> bool {
        *self == *other
    }
}

/// A neuron of the community fund that takes part in a swap.
#[derive(Copy, Debug, PartialEq, Eq, Structural, Default)]
pub struct CfNeuron {
    pub nns_neuron_id: u64,
    pub amount_icp_e8s: u64,
}

impl Clone for CfNeuron {
    fn clone(&self) -> (cloned: Self)
        ensures
            cloned == *self,
    {
        *self
    }
}

impl SameContent for CfNeuron {
    open spec fn same_content(&self, other: &Self) -> bool {
        *self == *other
    }
}

/// A participant of the community fund in a swap, with its neurons.
#[derive(Debug, PartialEq, Eq, Default)]
pub struct CfParticipant {
    pub hotkey_principal: String,
    pub cf_neurons: Vec<CfNeuron>,
}

impl Clone for CfParticipant {
    fn clone(&self) -> (cloned: Self)
        ensures
            cloned.same_content(self),
    {
        CfParticipant {
            hotkey_principal: self.hotkey_principal.clone(),
            cf_neurons: self.cf_neurons.clone(),
        }
    }
}

impl SameContent for CfParticipant {
    open spec fn same_content(&self, other: &Self) -> bool {
        &&& self.hotkey_principal.same_content(&other.hotkey_principal)
        &&& self.cf_neurons.same_content(&other.cf_neurons)
    }
}

/// How the neurons of a swap's basket are made.
#[derive(Copy, Debug, PartialEq, Eq, Structural, Default)]
pub struct NeuronBasketConstructionParameters {
    pub count: u64,
    pub dissolve_delay_interval_seconds: u64,
}

impl Clone for NeuronBasketConstructionParameters {
    fn clone(&self) -> (cloned: Self)
        ensures
            cloned == *self,
    {
        *self
    }
}

impl SameContent for NeuronBasketConstructionParameters {
    open spec fn same_content(&self, other: &Self) -> bool {
        *self == *other
    }
}

/// The limits of a swap.
#[derive(Copy, Debug, PartialEq, Eq, Default)]
pub struct Params {
    pub min_participants: u32,
    pub min_icp_e8s: u64,
    pub max_icp_e8s: u64,
    pub min_participant_icp_e8s: u64,
    pub max_participant_icp_e8s: u64,
    pub swap_due_timestamp_seconds: u64,
    pub sns_token_e8s: u64,
    pub neuron_basket_construction_parameters: Option<NeuronBasketConstructionParameters>,
    pub sale_delay_seconds: Option<u64>,
}

impl Clone for Params {
    fn clone(&self) -> (cloned: Self)
        ensures
            cloned == *self,
    {
        *self
    }
}

impl SameContent for Params {
    open spec fn same_content(&self, other: &Self) -> bool {
        *self == *other
    }
}

} // verus!
