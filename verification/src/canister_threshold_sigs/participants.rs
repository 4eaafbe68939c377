//! Choosing the dealers and the receivers of an IDkg protocol run.
use vstd::prelude::*;
use std::collections::BTreeSet;
use rand::rngs::StdRng;
use super::rng::{choose_multiple_from_set, gen_range_inclusive};
use super::types::NodeId;

verus! {

/// Assembles various strategies for choosing IDkg participants.
#[derive(Clone, Copy, Debug, PartialEq, Eq, Structural)]
pub enum IDkgParticipants {
    /// Choose dealers and receivers randomly:
    /// - Choose a random subset with at least one node to be dealers.
    /// - Choose a random subset with at least one node to be receivers.
    /// Both dealers and receivers are chosen independently of each other and it could be the case
    /// that some nodes are neither dealers nor receivers.
    /// This is equivalent to `RandomWithAtLeast{min_num_dealers: 1, min_num_receivers: 1}`.
    Random,
    /// Choose dealers and receivers randomly:
    /// - Choose a random subset with at least `min_num_dealers` nodes to be dealers.
    /// - Choose a random subset with at least `min_num_receivers` nodes to be receivers.
    /// Both dealers and receivers are chosen independently of each other and it could be the case
    /// that some nodes are neither dealers nor receivers.
    ///
    /// # Panics
    /// - If `min_num_dealers` is zero.
    /// - If `min_num_receivers` is zero.
    RandomWithAtLeast { min_num_dealers: usize, min_num_receivers: usize },
    /// Choose dealers and receivers randomly such that they can be used for threshold signature,
    /// meaning that the *same* dealers and receivers can be involved in all required `IDkgTranscriptOperation`s.
    ///
    /// This implies the following restrictions on how dealers and receivers can be chosen
    /// (see `IDkgTranscriptParams::new` for details):
    /// - dealers must be a subset of receivers
    /// - there must be sufficiently many dealers and receivers such that the collection threshold is satisfied.
    ///
    /// To simplify the implementation, receivers are chosen to be *all nodes*, while dealers are chosen
    /// to be a random subset of a certain minimum size, such that the collection threshold for the
    /// various needed `IDkgTranscriptOperation`s is always satisfied.
    RandomForThresholdSignature,
    /// Choose all nodes as both dealers and receivers.
    /// No random choice is involved.
    AllNodesAsDealersAndReceivers,
}

/// The number of faulty nodes that a set of `n` nodes tolerates.
pub open spec fn faults_tolerated(n: int) -> int {
    if n <= 1 {
        0
    } else {
        (n - 1) / 3
    }
}

/// The number of faulty nodes that a set of `n` nodes tolerates: the largest
/// `f` with `3 * f + 1 <= n`, and `0` for an empty set.
pub fn get_faults_tolerated(n: usize) -> (f: usize)
    ensures
        f == faults_tolerated(n as int),
{
    let at_least_one = if n > 1 {
        n
    } else {
        1
    };
    (at_least_one - 1) / 3
}

/// The largest collection threshold that the three `IDkgTranscriptOperation`s
/// need with `num_dealers` dealers and `num_receivers` receivers: random,
/// resharing, and multiplication.
pub open spec fn max_collection_threshold(num_dealers: int, num_receivers: int) -> int {
    let faulty_dealers = faults_tolerated(num_dealers);
    let faulty_receivers = faults_tolerated(num_receivers);
    let random = faulty_dealers + 1;
    let reshare = faulty_receivers + 1;
    let multiply = 2 * (faulty_receivers + 1) - 1;
    if random >= reshare && random >= multiply {
        random
    } else if reshare >= multiply {
        reshare
    } else {
        multiply
    }
}

/// Whether `num_dealers` dealers suffice for every operation of a threshold
/// signature with `num_receivers` receivers: the honest dealers alone reach
/// the largest collection threshold.
pub open spec fn threshold_satisfied(num_dealers: int, num_receivers: int) -> bool {
    num_dealers >= faults_tolerated(num_dealers) + max_collection_threshold(
        num_dealers,
        num_receivers,
    )
}

/// Whether `num_dealers` is the least number of dealers in `1..=num_receivers`
/// that satisfies the threshold with `num_receivers` receivers.
pub open spec fn least_num_dealers(num_dealers: int, num_receivers: int) -> bool {
    &&& 1 <= num_dealers <= num_receivers
    &&& threshold_satisfied(num_dealers, num_receivers)
    &&& forall|fewer: int| 1 <= fewer < num_dealers ==> !threshold_satisfied(fewer, num_receivers)
}

proof fn lemma_faults_tolerated_bounds(n: int)
    requires
        n >= 0,
    ensures
        0 <= faults_tolerated(n),
        n >= 1 ==> 3 * faults_tolerated(n) + 1 <= n,
        n >= 1 ==> n <= 3 * faults_tolerated(n) + 3,
{
}

/// The node ids of a `BTreeSet` form a finite set.
pub proof fn lemma_node_ids_finite(node_ids: &BTreeSet<NodeId>)
    ensures
        node_ids@.finite(),
{
    let iter = vstd::std_specs::btree::spec_btree_keys_iter(node_ids);
    let ids = vstd::std_specs::iter::IteratorSpec::remaining(&iter).unref();
    assert(ids.to_set() == node_ids@);
}

/// Whether the threshold is satisfied depends on the number of dealers only
/// through how many of them are not tolerated as faulty.
proof fn lemma_threshold_satisfied_meaning(num_dealers: int, num_receivers: int)
    requires
        num_dealers >= 0,
        num_receivers >= 0,
    ensures
        threshold_satisfied(num_dealers, num_receivers) <==> num_dealers >= 1 && num_dealers
            - faults_tolerated(num_dealers) >= 2 * faults_tolerated(num_receivers) + 1,
{
    lemma_faults_tolerated_bounds(num_dealers);
    lemma_faults_tolerated_bounds(num_receivers);
}

/// With as many dealers as receivers, the threshold is satisfied.
pub proof fn lemma_all_receivers_as_dealers_satisfy(num_receivers: int)
    requires
        num_receivers >= 1,
    ensures
        threshold_satisfied(num_receivers, num_receivers),
{
    lemma_threshold_satisfied_meaning(num_receivers, num_receivers);
    lemma_faults_tolerated_bounds(num_receivers);
}

/// More dealers never break a satisfied threshold.
pub proof fn lemma_threshold_satisfied_monotonic(
    num_dealers: int,
    more_dealers: int,
    num_receivers: int,
)
    requires
        0 <= num_dealers <= more_dealers,
        num_receivers >= 0,
        threshold_satisfied(num_dealers, num_receivers),
    ensures
        threshold_satisfied(more_dealers, num_receivers),
{
    lemma_threshold_satisfied_meaning(num_dealers, num_receivers);
    lemma_threshold_satisfied_meaning(more_dealers, num_receivers);
    lemma_faults_tolerated_bounds(num_dealers);
    lemma_faults_tolerated_bounds(more_dealers);
}

/// Whether `num_dealers` dealers and `num_receivers` receivers satisfy the
/// collection threshold of every operation of a threshold signature.
fn is_threshold_satisfied(num_dealers: usize, num_receivers: usize) -> (satisfied: bool)
    ensures
        satisfied == threshold_satisfied(num_dealers as int, num_receivers as int),
{
    let faulty_dealers = get_faults_tolerated(num_dealers);
    let faulty_receivers = get_faults_tolerated(num_receivers);
    proof {
        lemma_faults_tolerated_bounds(num_dealers as int);
        lemma_faults_tolerated_bounds(num_receivers as int);
    }
    let random = faulty_dealers + 1;
    let reshare = faulty_receivers + 1;
    let multiply = 2 * (faulty_receivers + 1) - 1;
    let max_collection_threshold = if random >= reshare && random >= multiply {
        random
    } else if reshare >= multiply {
        reshare
    } else {
        multiply
    };
    num_dealers >= faulty_dealers + max_collection_threshold
}

/// The least number of dealers, out of at most `num_receivers`, with which a
/// threshold signature with `num_receivers` receivers satisfies the collection
/// threshold of all its operations. There is one unless `num_receivers` is zero.
pub fn min_num_dealers_for_threshold_signature(num_receivers: usize) -> (num_dealers: Option<usize>)
    ensures
        match num_dealers {
            Some(d) => least_num_dealers(d as int, num_receivers as int),
            None => forall|d: int|
                1 <= d <= num_receivers ==> !threshold_satisfied(d, num_receivers as int),
        },
        num_dealers is None <==> num_receivers == 0,
{
    let mut candidate: usize = 1;
    while candidate <= num_receivers
        invariant
            1 <= candidate,
            candidate <= num_receivers + 1,
            forall|d: int| 1 <= d < candidate ==> !threshold_satisfied(d, num_receivers as int),
        decreases num_receivers + 1 - candidate,
    {
        if is_threshold_satisfied(candidate, num_receivers) {
            return Some(candidate);
        }
        candidate = candidate + 1;
    }
    proof {
        if num_receivers >= 1 {
            lemma_all_receivers_as_dealers_satisfy(num_receivers as int);
        }
    }
    None
}

/// Whether `strategy` can choose participants out of `num_nodes` nodes, that
/// is, whether the choice neither panics nor yields an empty set of dealers
/// or receivers.
pub open spec fn can_choose(strategy: IDkgParticipants, num_nodes: int) -> bool {
    match strategy {
        IDkgParticipants::RandomWithAtLeast { min_num_dealers, min_num_receivers } => {
            &&& 0 < min_num_dealers <= num_nodes
            &&& 0 < min_num_receivers <= num_nodes
        },
        _ => num_nodes >= 1,
    }
}

/// The set of the node ids in `chosen`.
pub fn set_of_chosen(chosen: &Vec<NodeId>) -> (subset: BTreeSet<NodeId>)
    ensures
        subset@ == chosen@.to_set(),
{
    let mut subset: BTreeSet<NodeId> = BTreeSet::new();
    let mut i: usize = 0;
    while i < chosen.len()
        invariant
            i <= chosen@.len(),
            subset@ == chosen@.take(i as int).to_set(),
        decreases chosen@.len() - i,
    {
        assert(chosen@.take(i as int + 1) == chosen@.take(i as int).push(chosen@[i as int]));
        proof {
            chosen@.take(i as int).lemma_push_to_set_commute(chosen@[i as int]);
        }
        subset.insert(chosen[i]);
        i = i + 1;
    }
    assert(chosen@.take(i as int) == chosen@);
    subset
}

/// A random subset of `node_ids` with at least `minimum_size` elements: a
/// random size between `minimum_size` and the number of nodes, then that many
/// distinct nodes chosen at random.
pub fn random_subset_with_min_size(
    node_ids: &BTreeSet<NodeId>,
    minimum_size: usize,
    rng: &mut StdRng,
) -> (subset: BTreeSet<NodeId>)
    requires
        minimum_size <= node_ids@.len(),
    ensures
        subset@.subset_of(node_ids@),
        minimum_size <= subset@.len() <= node_ids@.len(),
{
    let subset_size = gen_range_inclusive(rng, minimum_size, node_ids.len());
    let chosen = choose_multiple_from_set(node_ids, subset_size, rng);
    let subset = set_of_chosen(&chosen);
    proof {
        chosen@.unique_seq_to_set();
        assert forall|id: NodeId| subset@.contains(id) implies node_ids@.contains(id) by {
            let k = choose|k: int| 0 <= k < chosen@.len() && chosen@[k] == id;
            assert(node_ids@.contains(chosen@[k]));
        }
    }
    subset
}

/// Random dealers and random receivers, chosen independently, with at least
/// `min_num_dealers` and `min_num_receivers` of them: what
/// `RandomWithAtLeast` does, and `Random` with both minimums at one.
fn choose_with_at_least(
    node_ids: &BTreeSet<NodeId>,
    min_num_dealers: usize,
    min_num_receivers: usize,
    rng: &mut StdRng,
) -> (participants: (BTreeSet<NodeId>, BTreeSet<NodeId>))
    requires
        min_num_dealers <= node_ids@.len(),
        min_num_receivers <= node_ids@.len(),
    ensures
        participants.0@.subset_of(node_ids@),
        participants.1@.subset_of(node_ids@),
        min_num_dealers <= participants.0@.len(),
        min_num_receivers <= participants.1@.len(),
{
    let dealers = random_subset_with_min_size(node_ids, min_num_dealers, rng);
    let receivers = random_subset_with_min_size(node_ids, min_num_receivers, rng);
    (dealers, receivers)
}

/// The dealers and the receivers that `strategy` chooses out of `node_ids`,
/// in this order.
pub fn choose_dealers_and_receivers(
    node_ids: &BTreeSet<NodeId>,
    strategy: &IDkgParticipants,
    rng: &mut StdRng,
) -> (participants: (BTreeSet<NodeId>, BTreeSet<NodeId>))
    requires
        can_choose(*strategy, node_ids@.len() as int),
    ensures
        participants.0@.subset_of(node_ids@),
        participants.1@.subset_of(node_ids@),
        participants.0@.len() >= 1,
        participants.1@.len() >= 1,
        match *strategy {
            IDkgParticipants::Random => true,
            IDkgParticipants::RandomWithAtLeast { min_num_dealers, min_num_receivers } => {
                &&& participants.0@.len() >= min_num_dealers
                &&& participants.1@.len() >= min_num_receivers
            },
            IDkgParticipants::RandomForThresholdSignature => {
                &&& participants.1@ == node_ids@
                &&& exists|least: int|
                    least_num_dealers(least, node_ids@.len() as int) && participants.0@.len()
                        >= least
            },
            IDkgParticipants::AllNodesAsDealersAndReceivers => {
                &&& participants.0@ == node_ids@
                &&& participants.1@ == node_ids@
            },
        },
        *strategy is AllNodesAsDealersAndReceivers ==> *final(rng) == *old(rng),
        *strategy is RandomForThresholdSignature ==> {
            &&& participants.0@.subset_of(participants.1@)
            &&& threshold_satisfied(participants.0@.len() as int, participants.1@.len() as int)
        },
{
    match strategy {
        IDkgParticipants::Random => choose_with_at_least(node_ids, 1, 1, rng),
        IDkgParticipants::RandomWithAtLeast { min_num_dealers, min_num_receivers } => {
            choose_with_at_least(node_ids, *min_num_dealers, *min_num_receivers, rng)
        },
        IDkgParticipants::RandomForThresholdSignature => {
            let min_num_receivers = node_ids.len();
            let min_num_dealers = match min_num_dealers_for_threshold_signature(min_num_receivers) {
                Some(num_dealers) => num_dealers,
                None => {
                    assert(false);
                    min_num_receivers
                },
            };
            let dealers = random_subset_with_min_size(node_ids, min_num_dealers, rng);
            let receivers = random_subset_with_min_size(node_ids, min_num_receivers, rng);
            proof {
                lemma_node_ids_finite(node_ids);
                lemma_node_ids_finite(&receivers);
                vstd::set_lib::lemma_subset_equality(receivers@, node_ids@);
                lemma_threshold_satisfied_monotonic(
                    min_num_dealers as int,
                    dealers@.len() as int,
                    node_ids@.len() as int,
                );
            }
            (dealers, receivers)
        },
        IDkgParticipants::AllNodesAsDealersAndReceivers => (node_ids.clone(), node_ids.clone()),
    }
}

} // verus!
