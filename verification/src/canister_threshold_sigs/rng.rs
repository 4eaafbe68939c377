//! The calls into `rand` that the test utilities make.
use vstd::prelude::*;
use std::collections::BTreeSet;
use rand::rngs::StdRng;
use rand::seq::{IteratorRandom, SliceRandom};
use rand::Rng;

verus! {

/// The standard random number generator of `rand`.
#[verifier::external_type_specification]
#[verifier::external_body]
pub struct ExStdRng(StdRng);

/// Calls `Rng::gen_range` of `rand` on the range `low..=high`. The value lies
/// in that range; which value it is rests on `rng`. `gen_range` panics on an
/// empty range, hence the `requires`.
#[verifier::external_body]
pub(crate) fn gen_range_inclusive(rng: &mut StdRng, low: usize, high: usize) -> (value: usize)
    requires
        low <= high,
    ensures
        low <= value <= high,
{
    rng.gen_range(low..=high)
}

/// Calls `Rng::gen` of `rand` for a `u64`. Any `u64` may come back; which one
/// rests on `rng`, so nothing is stated of it.
#[verifier::external_body]
pub(crate) fn gen_u64(rng: &mut StdRng) -> (value: u64) {
    rng.gen::<u64>()
}

/// Calls `IteratorRandom::choose_multiple` of `rand` on the elements of
/// `elements`, in increasing order. It returns `amount` of them, or all of them
/// where there are fewer, each at most once. Which ones it returns, and in
/// which order, rests on `rng` and is not stated.
#[verifier::external_body]
pub(crate) fn choose_multiple_from_set<K: Copy + Ord>(
    elements: &BTreeSet<K>,
    amount: usize,
    rng: &mut StdRng,
) -> (chosen: Vec<K>)
    requires
        vstd::laws_cmp::obeys_cmp::<K>(),
    ensures
        amount <= elements@.len() ==> chosen@.len() == amount,
        amount > elements@.len() ==> chosen@.len() == elements@.len(),
        chosen@.no_duplicates(),
        forall|i: int| 0 <= i < chosen@.len() ==> elements@.contains(#[trigger] chosen@[i]),
{
    elements.iter().copied().choose_multiple(rng, amount)
}

/// Calls `SliceRandom::choose` of `rand` on `values`: `None` for no values,
/// and one of them otherwise. Which one rests on `rng` and is not stated.
#[verifier::external_body]
pub(crate) fn choose_from_slice<K: Copy>(values: &Vec<K>, rng: &mut StdRng) -> (chosen: Option<K>)
    ensures
        chosen is None <==> values@.len() == 0,
        chosen matches Some(value) ==> values@.contains(value),
{
    values.as_slice().choose(rng).copied()
}

} // verus!
