use vstd::prelude::*;
use crate::content::SameContent;

verus! {

/// Protobuf representing a list of followees of a neuron for a
/// specific topic.
#[derive(Debug, PartialEq, Default)]
pub struct Followees {
    pub followees: Vec<crate::ids::NeuronId>,
}

impl Clone for Followees {
    fn clone(&self) -> (cloned: Self)
        ensures
            cloned.same_content(self),
    {
        Followees {
            followees: self.followees.clone(),
        }
    }
}

impl SameContent for Followees {
    open spec fn same_content(&self, other: &Self) -> bool {
        &&& self.followees.same_content(&other.followees)
    }
}

/// At any time, at most one of `when_dissolved` and
/// `dissolve_delay` are specified.
///
/// `NotDissolving`. This is represented by `dissolve_delay` being
/// set to a non zero value.
///
/// `Dissolving`. This is represented by `when_dissolved` being
/// set, and this value is in the future.
///
/// `Dissolved`. All other states represent the dissolved
/// state. That is, (a) `when_dissolved` is set and in the past,
/// (b) `dissolve_delay` is set to zero, (c) neither value is set.
///
/// Cf. \[Neuron::stop_dissolving\] and \[Neuron::start_dissolving\].
#[derive(Debug, PartialEq)]
pub enum DissolveState {
    /// When the dissolve timer is running, this stores the timestamp,
    /// in seconds from the Unix epoch, at which the neuron becomes
    /// dissolved.
    ///
    /// At any time while the neuron is dissolving, the neuron owner
    /// may pause dissolving, in which case `dissolve_delay_seconds`
    /// will get assigned to: `when_dissolved_timestamp_seconds -
    /// <timestamp when the action is taken>`.
    WhenDissolvedTimestampSeconds(u64),
    /// When the dissolve timer is stopped, this stores how much time,
    /// in seconds, the dissolve timer will be started with. Can be at
    /// most 8 years.
    ///
    /// At any time while in this state, the neuron owner may (re)start
    /// dissolving, in which case `when_dissolved_timestamp_seconds`
    /// will get assigned to: `<timestamp when the action is taken> +
    /// dissolve_delay_seconds`.
    DissolveDelaySeconds(u64),
}

impl Clone for DissolveState {
    fn clone(&self) -> (cloned: Self)
        ensures
            cloned.same_content(self),
    {
        match self {
            DissolveState::WhenDissolvedTimestampSeconds(value) => DissolveState::WhenDissolvedTimestampSeconds(*value),
            DissolveState::DissolveDelaySeconds(value) => DissolveState::DissolveDelaySeconds(*value),
        }
    }
}

impl SameContent for DissolveState {
    open spec fn same_content(&self, other: &Self) -> bool {
        match (self, other) {
            (DissolveState::WhenDissolvedTimestampSeconds(a), DissolveState::WhenDissolvedTimestampSeconds(b)) => a.same_content(b),
            (DissolveState::DissolveDelaySeconds(a), DissolveState::DissolveDelaySeconds(b)) => a.same_content(b),
            _ => false,
        }
    }
}

} // verus!
