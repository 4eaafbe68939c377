use ic_nns_governance::canister_threshold_sigs::participants::{
    choose_dealers_and_receivers, get_faults_tolerated, min_num_dealers_for_threshold_signature,
    random_subset_with_min_size, set_of_chosen, IDkgParticipants,
};
use rand::rngs::StdRng;
use rand::SeedableRng;
use std::collections::BTreeSet;

fn faults(n: usize) -> usize {
    get_faults_tolerated(n)
}

fn satisfied(num_dealers: usize, num_receivers: usize) -> bool {
    let faulty_dealers = faults(num_dealers);
    let faulty_receivers = faults(num_receivers);
    let max = *[
        faulty_dealers + 1,
        faulty_receivers + 1,
        2 * (faulty_receivers + 1) - 1,
    ]
    .iter()
    .max()
    .unwrap();
    num_dealers >= faulty_dealers + max
}

fn ids(n: u64) -> BTreeSet<u64> {
    (1..=n).collect()
}

#[test]
fn faults_tolerated_values() {
    assert_eq!(get_faults_tolerated(0), 0);
    assert_eq!(get_faults_tolerated(1), 0);
    assert_eq!(get_faults_tolerated(3), 0);
    assert_eq!(get_faults_tolerated(4), 1);
    assert_eq!(get_faults_tolerated(6), 1);
    assert_eq!(get_faults_tolerated(7), 2);
    assert_eq!(get_faults_tolerated(13), 4);
    assert_eq!(get_faults_tolerated(100), 33);
}

#[test]
fn min_num_dealers_values() {
    assert_eq!(min_num_dealers_for_threshold_signature(0), None);
    assert_eq!(min_num_dealers_for_threshold_signature(1), Some(1));
    assert_eq!(min_num_dealers_for_threshold_signature(3), Some(1));
    assert_eq!(min_num_dealers_for_threshold_signature(4), Some(3));
    assert_eq!(min_num_dealers_for_threshold_signature(6), Some(3));
    assert_eq!(min_num_dealers_for_threshold_signature(7), Some(6));
    assert_eq!(min_num_dealers_for_threshold_signature(13), Some(12));
}

#[test]
fn min_num_dealers_is_the_least_satisfying_number() {
    for n in 1..60 {
        let d = min_num_dealers_for_threshold_signature(n).unwrap();
        assert!(d <= n);
        assert!(satisfied(d, n));
        for fewer in 1..d {
            assert!(!satisfied(fewer, n));
        }
        for more in d..=n {
            assert!(satisfied(more, n));
        }
    }
}

#[test]
fn random_subsets_respect_their_bounds() {
    let node_ids = ids(8);
    let mut sizes = BTreeSet::new();
    for seed in 0..40 {
        let mut rng = StdRng::seed_from_u64(seed);
        let subset = random_subset_with_min_size(&node_ids, 3, &mut rng);
        assert!(subset.len() >= 3 && subset.len() <= 8);
        assert!(subset.is_subset(&node_ids));
        sizes.insert(subset.len());
    }
    assert!(sizes.len() > 1);
    let mut rng = StdRng::seed_from_u64(1);
    assert_eq!(random_subset_with_min_size(&node_ids, 8, &mut rng), node_ids);
}

#[test]
fn all_nodes_strategy_takes_every_node() {
    let node_ids = ids(5);
    let mut rng = StdRng::seed_from_u64(3);
    let (dealers, receivers) = choose_dealers_and_receivers(
        &node_ids,
        &IDkgParticipants::AllNodesAsDealersAndReceivers,
        &mut rng,
    );
    assert_eq!(dealers, node_ids);
    assert_eq!(receivers, node_ids);
}

#[test]
fn random_strategies_respect_minimums() {
    let node_ids = ids(10);
    for seed in 0..20 {
        let mut rng = StdRng::seed_from_u64(seed);
        let (dealers, receivers) =
            choose_dealers_and_receivers(&node_ids, &IDkgParticipants::Random, &mut rng);
        assert!(!dealers.is_empty() && !receivers.is_empty());
        assert!(dealers.is_subset(&node_ids) && receivers.is_subset(&node_ids));

        let strategy = IDkgParticipants::RandomWithAtLeast {
            min_num_dealers: 4,
            min_num_receivers: 7,
        };
        let (dealers, receivers) = choose_dealers_and_receivers(&node_ids, &strategy, &mut rng);
        assert!(dealers.len() >= 4 && receivers.len() >= 7);
        assert!(dealers.is_subset(&node_ids) && receivers.is_subset(&node_ids));
    }
}

#[test]
fn threshold_strategy_satisfies_the_collection_threshold() {
    for n in 1..25 {
        let node_ids = ids(n);
        for seed in 0..5 {
            let mut rng = StdRng::seed_from_u64(seed * 100 + n);
            let (dealers, receivers) = choose_dealers_and_receivers(
                &node_ids,
                &IDkgParticipants::RandomForThresholdSignature,
                &mut rng,
            );
            assert_eq!(receivers, node_ids);
            assert!(dealers.is_subset(&receivers));
            assert!(
                dealers.len() >= min_num_dealers_for_threshold_signature(n as usize).unwrap()
            );
            assert!(satisfied(dealers.len(), receivers.len()));
        }
    }
}

#[test]
fn all_nodes_strategy_draws_nothing() {
    let nodes: BTreeSet<u64> = (1..=5).collect();
    let mut rng = StdRng::seed_from_u64(21);
    let untouched = rng.clone();
    let (dealers, receivers) = choose_dealers_and_receivers(
        &nodes,
        &IDkgParticipants::AllNodesAsDealersAndReceivers,
        &mut rng,
    );
    assert_eq!(dealers, nodes);
    assert_eq!(receivers, nodes);
    assert_eq!(rng, untouched);
}

#[test]
fn chosen_nodes_form_a_set() {
    assert_eq!(set_of_chosen(&vec![5, 2, 9]), [2, 5, 9].into_iter().collect());
    assert_eq!(set_of_chosen(&vec![]), BTreeSet::new());
}
