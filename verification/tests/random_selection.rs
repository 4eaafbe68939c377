use ic_nns_governance::canister_threshold_sigs::selection::{
    accept_draw, keep_draw, n_random_dealer_indexes, random_dealer_index_excluding,
    random_node_id_excluding, random_node_ids_excluding, random_receiver_id_excluding,
    random_receiver_id_excluding_set, random_registry_version, random_transcript_id_numbers,
    CountingRng,
};
use rand::rngs::StdRng;
use rand::SeedableRng;
use std::collections::BTreeSet;

#[test]
fn receivers_all_excluded_give_none() {
    let receivers: BTreeSet<u64> = [1, 2, 3].into_iter().collect();
    let excluded: BTreeSet<u64> = [1, 2, 3, 4].into_iter().collect();
    let mut rng = StdRng::seed_from_u64(0);
    assert_eq!(random_receiver_id_excluding_set(&receivers, &excluded, &mut rng), None);
    let empty = BTreeSet::new();
    assert_eq!(random_receiver_id_excluding_set(&empty, &BTreeSet::new(), &mut rng), None);
}

#[test]
fn picked_receivers_are_not_excluded() {
    let receivers: BTreeSet<u64> = (1..=6).collect();
    let excluded: BTreeSet<u64> = [2, 4].into_iter().collect();
    let mut seen = BTreeSet::new();
    for seed in 0..60 {
        let mut rng = StdRng::seed_from_u64(seed);
        let receiver = random_receiver_id_excluding_set(&receivers, &excluded, &mut rng).unwrap();
        assert!(receivers.contains(&receiver) && !excluded.contains(&receiver));
        seen.insert(receiver);
    }
    assert_eq!(seen, [1, 3, 5, 6].into_iter().collect());
}

#[test]
fn the_only_other_receiver_is_picked() {
    let receivers: BTreeSet<u64> = [10, 20].into_iter().collect();
    for seed in 0..10 {
        let mut rng = StdRng::seed_from_u64(seed);
        assert_eq!(random_receiver_id_excluding(&receivers, 10, &mut rng), 20);
    }
}

#[test]
fn dealer_index_other_than_excluded() {
    let indexes: BTreeSet<u32> = (0..5).collect();
    for seed in 0..30 {
        let mut rng = StdRng::seed_from_u64(seed);
        let index = random_dealer_index_excluding(&indexes, 3, &mut rng);
        assert!(indexes.contains(&index) && index != 3);
    }
    let two: BTreeSet<u32> = [0, 1].into_iter().collect();
    let mut rng = StdRng::seed_from_u64(7);
    assert_eq!(random_dealer_index_excluding(&two, 0, &mut rng), 1);
}

#[test]
fn n_dealer_indexes_are_distinct() {
    let indexes: BTreeSet<u32> = (0..7).collect();
    for seed in 0..20 {
        let mut rng = StdRng::seed_from_u64(seed);
        let chosen = n_random_dealer_indexes(&indexes, 3, &mut rng);
        assert_eq!(chosen.len(), 3);
        let distinct: BTreeSet<u32> = chosen.iter().cloned().collect();
        assert_eq!(distinct.len(), 3);
        assert!(distinct.is_subset(&indexes));
    }
    let mut rng = StdRng::seed_from_u64(0);
    let all = n_random_dealer_indexes(&indexes, 7, &mut rng);
    let all: BTreeSet<u32> = all.into_iter().collect();
    assert_eq!(all, indexes);
}

#[test]
fn random_node_ids_avoid_exclusions() {
    let exclusions: BTreeSet<u64> = (0..100).collect();
    for seed in 0..20 {
        let mut rng = CountingRng::new(StdRng::seed_from_u64(seed));
        let ids = random_node_ids_excluding(&exclusions, 7, |number: u64| number, &mut rng).unwrap();
        assert_eq!(ids.len(), 7);
        assert!(ids.is_disjoint(&exclusions));
    }
}

#[test]
fn no_random_node_ids_asked_gives_the_empty_set() {
    let exclusions: BTreeSet<u64> = [1, 2].into_iter().collect();
    let mut rng = CountingRng::new(StdRng::seed_from_u64(3));
    assert_eq!(random_node_ids_excluding(&exclusions, 0, |number: u64| number, &mut rng), Some(BTreeSet::new()));
}

#[test]
fn random_node_id_is_not_excluded() {
    let exclusions: BTreeSet<u64> = (0..1000).collect();
    for seed in 0..20 {
        let mut rng = CountingRng::new(StdRng::seed_from_u64(seed));
        let id = random_node_id_excluding(&exclusions, |number: u64| number, &mut rng).unwrap();
        assert!(!exclusions.contains(&id));
    }
}

#[test]
fn random_node_ids_are_made_by_the_given_function() {
    let exclusions: BTreeSet<u64> = BTreeSet::new();
    let mut rng = CountingRng::new(StdRng::seed_from_u64(11));
    let ids = random_node_ids_excluding(&exclusions, 4, |number: u64| number % 4, &mut rng).unwrap();
    assert_eq!(ids, (0..4).collect::<BTreeSet<u64>>());
    let excluded: BTreeSet<u64> = [0, 1, 2].into_iter().collect();
    let id = random_node_id_excluding(&excluded, |number: u64| number % 4, &mut rng);
    assert_eq!(id, Some(3));
}

#[test]
fn random_node_id_without_exclusions_is_found() {
    let exclusions: BTreeSet<u64> = BTreeSet::new();
    let mut rng = CountingRng::new(StdRng::seed_from_u64(5));
    assert!(random_node_id_excluding(&exclusions, |number: u64| number, &mut rng).is_some());
}

#[test]
fn a_draw_is_accepted_unless_excluded() {
    let exclusions: BTreeSet<u64> = [4, 8].into_iter().collect();
    assert_eq!(accept_draw(&exclusions, 5), Some(5));
    assert_eq!(accept_draw(&exclusions, 8), None);
}

#[test]
fn a_draw_is_kept_unless_excluded() {
    let exclusions: BTreeSet<u64> = [4, 8].into_iter().collect();
    let mut node_ids: BTreeSet<u64> = [1].into_iter().collect();
    keep_draw(&mut node_ids, &exclusions, 4);
    assert_eq!(node_ids, [1].into_iter().collect());
    keep_draw(&mut node_ids, &exclusions, 6);
    assert_eq!(node_ids, [1, 6].into_iter().collect());
    keep_draw(&mut node_ids, &exclusions, 1);
    assert_eq!(node_ids, [1, 6].into_iter().collect());
}

#[test]
fn counting_rng_draws_like_its_generator() {
    let mut counting = CountingRng::new(StdRng::seed_from_u64(9));
    let mut plain = StdRng::seed_from_u64(9);
    for _ in 0..5 {
        assert_eq!(counting.next_u64(), rand::RngCore::next_u64(&mut plain));
    }
    let mut inner = counting.into_inner();
    assert_eq!(rand::RngCore::next_u64(&mut inner), rand::RngCore::next_u64(&mut plain));
}

#[test]
fn registry_versions_lie_below_u32_max() {
    for seed in 0..50 {
        let mut rng = StdRng::seed_from_u64(seed);
        let version = random_registry_version(&mut rng);
        assert!(1 <= version && version < u32::MAX as u64);
    }
}

#[test]
fn transcript_id_numbers_are_three_draws_in_order() {
    let mut counting = CountingRng::new(StdRng::seed_from_u64(17));
    let mut plain = StdRng::seed_from_u64(17);
    let numbers = random_transcript_id_numbers(&mut counting);
    let expected = (
        rand::RngCore::next_u64(&mut plain),
        rand::RngCore::next_u64(&mut plain),
        rand::RngCore::next_u64(&mut plain),
    );
    assert_eq!(numbers, expected);
}
