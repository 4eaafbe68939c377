//! Picking random receivers and dealers outside of the excluded ones.
use vstd::prelude::*;
use std::collections::BTreeSet;
use rand::rngs::StdRng;
use super::rng::{choose_from_slice, choose_multiple_from_set, gen_range_inclusive, gen_u64};
use super::types::NodeId;

verus! {

/// The receivers that are not excluded, in increasing order.
fn acceptable_receivers(receivers: &BTreeSet<NodeId>, excluded_receivers: &BTreeSet<NodeId>) -> (acceptable: Vec<NodeId>)
    ensures
        acceptable@.to_set() == receivers@.difference(excluded_receivers@),
{
    let mut acceptable: Vec<NodeId> = Vec::new();
    let ghost all = vstd::std_specs::iter::IteratorSpec::remaining(&receivers.iter());
    for receiver in it: receivers.iter()
        invariant
            it.seq() == all,
            all.unref().to_set() == receivers@,
            acceptable@.to_set() == all.take(it.index()).unref().to_set().difference(
                excluded_receivers@,
            ),
    {
        assert(all.take(it.index() + 1) == all.take(it.index()).push(all[it.index()]));
        proof {
            all.take(it.index()).unref().lemma_push_to_set_commute(*all[it.index()]);
            assert(all.take(it.index() + 1).unref() == all.take(it.index()).unref().push(
                *all[it.index()],
            ));
        }
        if !excluded_receivers.contains(receiver) {
            proof {
                acceptable@.lemma_push_to_set_commute(*receiver);
            }
            acceptable.push(*receiver);
        }
        assert(acceptable@.to_set() =~= all.take(it.index() + 1).unref().to_set().difference(
            excluded_receivers@,
        ));
    }
    assert(all.take(all.len() as int) == all);
    acceptable
}

/// Picks a random receiver that is not excluded, or `None` where every
/// receiver is excluded.
pub fn random_receiver_id_excluding_set(
    receivers: &BTreeSet<NodeId>,
    excluded_receivers: &BTreeSet<NodeId>,
    rng: &mut StdRng,
) -> (receiver: Option<NodeId>)
    ensures
        receiver is None <==> receivers@.subset_of(excluded_receivers@),
        receiver matches Some(id) ==> receivers@.contains(id) && !excluded_receivers@.contains(id),
{
    let acceptable = acceptable_receivers(receivers, excluded_receivers);
    if acceptable.len() == 0 {
        proof {
            assert forall|id: NodeId| receivers@.contains(id) implies excluded_receivers@.contains(
                id,
            ) by {
                if !excluded_receivers@.contains(id) {
                    assert(receivers@.difference(excluded_receivers@).contains(id));
                }
            }
        }
        return None;
    }
    let index = gen_range_inclusive(rng, 0, acceptable.len() - 1);
    let receiver = acceptable[index];
    assert(acceptable@.to_set().contains(acceptable@[index as int]));
    proof {
        let id = acceptable@[index as int];
        assert(receivers@.difference(excluded_receivers@).contains(id));
    }
    Some(receiver)
}

/// Picks a random receiver other than `exclusion`.
pub fn random_receiver_id_excluding(
    receivers: &BTreeSet<NodeId>,
    exclusion: NodeId,
    rng: &mut StdRng,
) -> (receiver: NodeId)
    requires
        exists|id: NodeId| receivers@.contains(id) && id != exclusion,
    ensures
        receivers@.contains(receiver),
        receiver != exclusion,
{
    let mut excluded_receivers: BTreeSet<NodeId> = BTreeSet::new();
    excluded_receivers.insert(exclusion);
    match random_receiver_id_excluding_set(receivers, &excluded_receivers, rng) {
        Some(receiver) => receiver,
        None => {
            proof {
                let id = choose|id: NodeId| receivers@.contains(id) && id != exclusion;
                assert(!excluded_receivers@.contains(id));
            }
            exclusion
        },
    }
}

/// The index of a dealer among the dealings of a transcript.
pub type NodeIndex = u32;

/// Picks a random dealer index other than `excluded_index`, out of the
/// indexes of the dealers whose dealings a transcript holds.
pub fn random_dealer_index_excluding(
    dealer_indexes: &BTreeSet<NodeIndex>,
    excluded_index: NodeIndex,
    rng: &mut StdRng,
) -> (index: NodeIndex)
    requires
        exists|other: NodeIndex| dealer_indexes@.contains(other) && other != excluded_index,
    ensures
        dealer_indexes@.contains(index),
        index != excluded_index,
{
    let mut others: Vec<NodeIndex> = Vec::new();
    let ghost all = vstd::std_specs::iter::IteratorSpec::remaining(&dealer_indexes.iter());
    for dealer_index in it: dealer_indexes.iter()
        invariant
            it.seq() == all,
            all.unref().to_set() == dealer_indexes@,
            forall|k: int|
                0 <= k < others@.len() ==> dealer_indexes@.contains(#[trigger] others@[k])
                    && others@[k] != excluded_index,
            forall|k: int|
                0 <= k < it.index() && *all[k] != excluded_index ==> others@.contains(
                    #[trigger] *all[k],
                ),
    {
        assert(all.unref().to_set().contains(*all[it.index()]));
        let ghost before = others@;
        if *dealer_index != excluded_index {
            others.push(*dealer_index);
        }
        assert forall|k: int|
            0 <= k < it.index() + 1 && *all[k] != excluded_index implies others@.contains(
            *all[k],
        ) by {
            if k < it.index() {
                let j = choose|j: int| 0 <= j < before.len() && before[j] == *all[k];
                assert(others@[j] == before[j]);
            } else {
                assert(others@[others@.len() - 1] == *dealer_index);
            }
        }
    }
    match choose_from_slice(&others, rng) {
        Some(index) => index,
        None => {
            proof {
                let other = choose|other: NodeIndex|
                    dealer_indexes@.contains(other) && other != excluded_index;
                assert(all.unref().to_set().contains(other));
                let k = choose|k: int| 0 <= k < all.len() && *all[k] == other;
                assert(others@.contains(*all[k]));
            }
            excluded_index
        },
    }
}

/// Picks `n` distinct random dealer indexes, out of the indexes of the dealers
/// whose dealings a transcript holds.
pub fn n_random_dealer_indexes(
    dealer_indexes: &BTreeSet<NodeIndex>,
    n: usize,
    rng: &mut StdRng,
) -> (indexes: Vec<NodeIndex>)
    requires
        dealer_indexes@.len() >= n,
    ensures
        indexes@.len() == n,
        indexes@.no_duplicates(),
        forall|k: int| 0 <= k < indexes@.len() ==> dealer_indexes@.contains(#[trigger] indexes@[k]),
{
    choose_multiple_from_set(dealer_indexes, n, rng)
}

/// A random number generator that records the numbers drawn from it.
pub struct CountingRng {
    rng: StdRng,
    record: Ghost<Seq<u64>>,
}

impl CountingRng {
    /// The numbers drawn from this generator, in the order of drawing.
    pub closed spec fn drawn(&self) -> Seq<u64> {
        self.record@
    }

    /// How many numbers have been drawn from this generator.
    pub open spec fn draws(&self) -> nat {
        self.drawn().len()
    }

    /// Wraps `rng`, with no draws recorded yet.
    pub fn new(rng: StdRng) -> (counting: CountingRng)
        ensures
            counting.drawn() == Seq::<u64>::empty(),
    {
        CountingRng { rng, record: Ghost(Seq::empty()) }
    }

    /// Draws a random `u64`, and records it.
    pub fn next_u64(&mut self) -> (value: u64)
        ensures
            final(self).drawn() == old(self).drawn().push(value),
    {
        let value = gen_u64(&mut self.rng);
        self.record = Ghost(self.record@.push(value));
        value
    }

    /// Gives back the wrapped generator.
    pub fn into_inner(self) -> StdRng {
        self.rng
    }
}

/// The numbers drawn from `after` since it was `before`.
pub open spec fn drawn_since(before: CountingRng, after: CountingRng) -> Seq<u64> {
    after.drawn().skip(before.drawn().len() as int)
}

/// `made` holds, for each number of `numbers`, an id that `make_id` makes of it.
pub open spec fn made_of<K, F: Fn(u64) -> K>(make_id: F, numbers: Seq<u64>, made: Seq<K>) -> bool {
    &&& made.len() == numbers.len()
    &&& forall|i: int| 0 <= i < made.len() ==> make_id.ensures((numbers[i],), #[trigger] made[i])
}

/// Drawing once more appends the new number to what was drawn since `before`.
proof fn lemma_drawn_since_push(before: CountingRng, middle: CountingRng, after: CountingRng, value: u64)
    requires
        before.drawn().is_prefix_of(middle.drawn()),
        after.drawn() == middle.drawn().push(value),
    ensures
        before.drawn().is_prefix_of(after.drawn()),
        drawn_since(before, after) == drawn_since(before, middle).push(value),
{
    assert(drawn_since(before, after) =~= drawn_since(before, middle).push(value));
    assert(before.drawn().is_prefix_of(after.drawn())) by {
        assert(after.drawn().subrange(0, before.drawn().len() as int) =~= middle.drawn().subrange(
            0,
            before.drawn().len() as int,
        ));
    }
}

/// Nothing has been drawn since a generator was as it is.
proof fn lemma_drawn_since_self(rng: CountingRng)
    ensures
        rng.drawn().is_prefix_of(rng.drawn()),
        drawn_since(rng, rng) == Seq::<u64>::empty(),
{
    assert(rng.drawn().subrange(0, rng.drawn().len() as int) =~= rng.drawn());
    assert(drawn_since(rng, rng) =~= Seq::<u64>::empty());
}

/// The ids of `made` that are not excluded, after one more made id.
proof fn lemma_kept_push<K>(made: Seq<K>, exclusions: Set<K>, candidate: K)
    ensures
        made.push(candidate).to_set().difference(exclusions) == if exclusions.contains(candidate) {
            made.to_set().difference(exclusions)
        } else {
            made.to_set().difference(exclusions).insert(candidate)
        },
{
    made.lemma_push_to_set_commute(candidate);
    assert(made.push(candidate).to_set().difference(exclusions) =~= if exclusions.contains(
        candidate,
    ) {
        made.to_set().difference(exclusions)
    } else {
        made.to_set().difference(exclusions).insert(candidate)
    });
}

/// What one draw gives: the id made of it, unless that id is excluded.
pub fn accept_draw<K: Ord + Copy>(exclusions: &BTreeSet<K>, candidate: K) -> (accepted: Option<K>)
    requires
        vstd::laws_cmp::obeys_cmp::<K>(),
    ensures
        accepted == if exclusions@.contains(candidate) {
            None
        } else {
            Some(candidate)
        },
{
    if exclusions.contains(&candidate) {
        None
    } else {
        Some(candidate)
    }
}

/// Adds the id made of one draw to `node_ids`, unless that id is excluded.
pub fn keep_draw<K: Ord + Copy>(node_ids: &mut BTreeSet<K>, exclusions: &BTreeSet<K>, candidate: K)
    requires
        vstd::laws_cmp::obeys_cmp::<K>(),
    ensures
        final(node_ids)@ == if exclusions@.contains(candidate) {
            old(node_ids)@
        } else {
            old(node_ids)@.insert(candidate)
        },
{
    if !exclusions.contains(&candidate) {
        node_ids.insert(candidate);
    }
}

/// Draws random numbers, makes a node id of each with `make_id`, and keeps
/// those outside `exclusions` until there are `n` distinct ones, which it
/// returns. It gives up, with `None`, only after `u64::MAX` draws that made
/// fewer than `n` distinct ids outside `exclusions`.
pub fn random_node_ids_excluding<K: Ord + Copy, F: Fn(u64) -> K>(
    exclusions: &BTreeSet<K>,
    n: usize,
    make_id: F,
    rng: &mut CountingRng,
) -> (node_ids: Option<BTreeSet<K>>)
    requires
        vstd::laws_cmp::obeys_cmp::<K>(),
        forall|number: u64| make_id.requires((number,)),
    ensures
        old(rng).drawn().is_prefix_of(final(rng).drawn()),
        exists|made: Seq<K>|
            #[trigger] made_of(make_id, drawn_since(*old(rng), *final(rng)), made) && match node_ids {
                Some(ids) => ids@ == made.to_set().difference(exclusions@),
                None => made.to_set().difference(exclusions@).len() < n,
            },
        node_ids matches Some(ids) ==> {
            &&& ids@.len() == n
            &&& ids@.disjoint(exclusions@)
            &&& forall|id: K|
                #![trigger ids@.contains(id)]
                ids@.contains(id) ==> exists|number: u64| make_id.ensures((number,), id)
        },
        node_ids is Some ==> final(rng).draws() <= old(rng).draws() + u64::MAX,
        node_ids is None ==> final(rng).draws() == old(rng).draws() + u64::MAX,
        n == 0 ==> node_ids is Some && final(rng).draws() == old(rng).draws(),
{
    let mut node_ids: BTreeSet<K> = BTreeSet::new();
    let mut draws: u64 = 0;
    let ghost mut made: Seq<K> = Seq::empty();
    proof {
        lemma_drawn_since_self(*rng);
        assert(node_ids@ =~= made.to_set().difference(exclusions@));
    }
    while node_ids.len() < n
        invariant
            vstd::laws_cmp::obeys_cmp::<K>(),
            forall|number: u64| make_id.requires((number,)),
            node_ids@.finite(),
            node_ids@.len() <= n,
            node_ids@.disjoint(exclusions@),
            forall|id: K|
                #![trigger node_ids@.contains(id)]
                node_ids@.contains(id) ==> exists|number: u64| make_id.ensures((number,), id),
            rng.draws() == old(rng).draws() + draws,
            n == 0 ==> draws == 0,
            old(rng).drawn().is_prefix_of(rng.drawn()),
            made_of(make_id, drawn_since(*old(rng), *rng), made),
            node_ids@ == made.to_set().difference(exclusions@),
        decreases u64::MAX - draws,
    {
        if draws == u64::MAX {
            return None;
        }
        draws = draws + 1;
        let ghost middle = *rng;
        let number = rng.next_u64();
        let candidate = make_id(number);
        proof {
            lemma_drawn_since_push(*old(rng), middle, *rng, number);
            lemma_kept_push(made, exclusions@, candidate);
            made = made.push(candidate);
            assert(made_of(make_id, drawn_since(*old(rng), *rng), made));
        }
        keep_draw(&mut node_ids, exclusions, candidate);
    }
    Some(node_ids)
}

/// Draws random numbers and makes a node id of each with `make_id` until one
/// outside `exclusions` comes up, which it returns. It gives up, with `None`,
/// only after `u64::MAX` draws whose ids were all excluded.
pub fn random_node_id_excluding<K: Ord + Copy, F: Fn(u64) -> K>(
    exclusions: &BTreeSet<K>,
    make_id: F,
    rng: &mut CountingRng,
) -> (node_id: Option<K>)
    requires
        vstd::laws_cmp::obeys_cmp::<K>(),
        forall|number: u64| make_id.requires((number,)),
    ensures
        old(rng).drawn().is_prefix_of(final(rng).drawn()),
        exists|made: Seq<K>|
            #[trigger] made_of(make_id, drawn_since(*old(rng), *final(rng)), made) && match node_id {
                Some(id) => {
                    &&& made.len() > 0
                    &&& made.last() == id
                    &&& !exclusions@.contains(id)
                    &&& forall|i: int| 0 <= i < made.len() - 1 ==> exclusions@.contains(made[i])
                },
                None => forall|i: int| 0 <= i < made.len() ==> exclusions@.contains(made[i]),
            },
        node_id matches Some(id) ==> {
            &&& !exclusions@.contains(id)
            &&& exists|number: u64| make_id.ensures((number,), id)
        },
        node_id is Some ==> old(rng).draws() < final(rng).draws() <= old(rng).draws() + u64::MAX,
        node_id is None ==> final(rng).draws() == old(rng).draws() + u64::MAX,
{
    let mut draws: u64 = 0;
    let ghost mut made: Seq<K> = Seq::empty();
    proof {
        lemma_drawn_since_self(*rng);
    }
    while draws < u64::MAX
        invariant
            vstd::laws_cmp::obeys_cmp::<K>(),
            forall|number: u64| make_id.requires((number,)),
            draws <= u64::MAX,
            rng.draws() == old(rng).draws() + draws,
            old(rng).drawn().is_prefix_of(rng.drawn()),
            made_of(make_id, drawn_since(*old(rng), *rng), made),
            forall|i: int| 0 <= i < made.len() ==> exclusions@.contains(made[i]),
        decreases u64::MAX - draws,
    {
        draws = draws + 1;
        let ghost middle = *rng;
        let number = rng.next_u64();
        let candidate = make_id(number);
        proof {
            lemma_drawn_since_push(*old(rng), middle, *rng, number);
        }
        let ghost before = made;
        proof {
            made = made.push(candidate);
            assert(made_of(make_id, drawn_since(*old(rng), *rng), made));
        }
        match accept_draw(exclusions, candidate) {
            Some(id) => {
                assert(made.last() == id);
                assert(forall|i: int| 0 <= i < made.len() - 1 ==> made[i] == before[i]);
                return Some(id);
            },
            None => {},
        }
    }
    None
}

/// A random registry version: a number in `1..u32::MAX`.
pub fn random_registry_version(rng: &mut StdRng) -> (version: u64)
    ensures
        1 <= version < u32::MAX,
{
    let value = gen_range_inclusive(rng, 1, (u32::MAX - 1) as usize);
    value as u64
}

/// The numbers of a random IDkg transcript id, drawn in this order: its own
/// number, the number its subnet is made of, and its height.
pub fn random_transcript_id_numbers(rng: &mut CountingRng) -> (numbers: (u64, u64, u64))
    ensures
        final(rng).drawn() == old(rng).drawn().push(numbers.0).push(numbers.1).push(numbers.2),
{
    let id = rng.next_u64();
    let subnet = rng.next_u64();
    let height = rng.next_u64();
    (id, subnet, height)
}

} // verus!
