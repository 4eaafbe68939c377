//! Corrupting valid values that hold binary data, such as signatures, by
//! flipping a bit.
use vstd::prelude::*;
use std::collections::BTreeMap;
use super::types::{
    BasicSig,
    BasicSigOf,
    BasicSignature,
    BasicSignatureBatch,
    NodeId,
    Randomness,
    Signed,
    ThresholdEcdsaCombinedSignature,
    ThresholdEcdsaSigShare,
};

verus! {

/// The bytes with the lowest bit of the last byte flipped.
pub open spec fn flip_last_bit(bytes: Seq<u8>) -> Seq<u8> {
    bytes.update(bytes.len() - 1, bytes.last() ^ 1u8)
}

/// The bytes of a signature of a value of type `T`.
pub open spec fn sig_bytes<T>(signature: BasicSigOf<T>) -> Seq<u8> {
    signature.spec_get_ref().0@
}

/// Flipping a bit yields bytes other than the original ones, of the same length.
pub proof fn lemma_flip_last_bit_differs(bytes: Seq<u8>)
    requires
        bytes.len() > 0,
    ensures
        flip_last_bit(bytes) != bytes,
        flip_last_bit(bytes).len() == bytes.len(),
{
    let last = bytes.last();
    assert(last ^ 1u8 != last) by (bit_vector);
    assert(flip_last_bit(bytes)[bytes.len() - 1] != bytes[bytes.len() - 1]);
}

/// Flipping the bit twice gives back the original bytes.
pub proof fn lemma_flip_last_bit_twice(bytes: Seq<u8>)
    requires
        bytes.len() > 0,
    ensures
        flip_last_bit(flip_last_bit(bytes)) == bytes,
{
    let last = bytes.last();
    assert((last ^ 1u8) ^ 1u8 == last) by (bit_vector);
    assert(flip_last_bit(flip_last_bit(bytes)) =~= bytes);
}

/// Corrupts valid instances of a given type containing some binary data
/// (e.g., signatures) for testing purposes.
///
/// Some types that we want to corrupt are immutable and that's the reason why this trait does
/// not mutate its parameter but rather produces a new instance of the given type.
pub trait CorruptBytes {
    /// The type to corrupt.
    type Type;

    /// Whether the binary data holds a bit to flip.
    spec fn has_bit_to_flip(&self) -> bool;

    /// Produces a new instance where a bit was flipped.
    /// Which bit was flipped is an implementation's detail.
    /// The produced instance is *guaranteed* to be different from the original one.
    ///
    /// # Panics
    /// If a bit cannot be flipped (e.g., when the binary data contained by the instance is empty)
    fn clone_with_bit_flipped(&self) -> Self::Type
        requires
            self.has_bit_to_flip(),
    ;
}

impl CorruptBytes for Vec<u8> {
    type Type = Self;

    open spec fn has_bit_to_flip(&self) -> bool {
        self@.len() > 0
    }

    fn clone_with_bit_flipped(&self) -> (flipped: Self)
        ensures
            flipped@ == flip_last_bit(self@),
            flipped@ != self@,
    {
        let mut bytes = self.clone();
        assert(bytes@ =~= self@);
        let last = bytes.len() - 1;
        let flipped_byte = bytes[last] ^ 1u8;
        bytes.set(last, flipped_byte);
        proof {
            lemma_flip_last_bit_differs(self@);
        }
        bytes
    }
}

impl<const N: usize> CorruptBytes for [u8; N] {
    type Type = Self;

    open spec fn has_bit_to_flip(&self) -> bool {
        N > 0
    }

    fn clone_with_bit_flipped(&self) -> (flipped: Self)
        ensures
            flipped@ == flip_last_bit(self@),
            flipped@ != self@,
    {
        let mut bytes = *self;
        let flipped_byte = bytes[N - 1] ^ 1u8;
        bytes[N - 1] = flipped_byte;
        proof {
            lemma_flip_last_bit_differs(self@);
        }
        assert(bytes@ =~= flip_last_bit(self@));
        bytes
    }
}

impl CorruptBytes for BasicSig {
    type Type = Self;

    open spec fn has_bit_to_flip(&self) -> bool {
        self.0@.len() > 0
    }

    fn clone_with_bit_flipped(&self) -> (flipped: Self)
        ensures
            flipped.0@ == flip_last_bit(self.0@),
            flipped.0@ != self.0@,
    {
        BasicSig(self.0.clone_with_bit_flipped())
    }
}

impl<T> CorruptBytes for BasicSigOf<T> {
    type Type = Self;

    open spec fn has_bit_to_flip(&self) -> bool {
        sig_bytes(*self).len() > 0
    }

    fn clone_with_bit_flipped(&self) -> (flipped: Self)
        ensures
            sig_bytes(flipped) == flip_last_bit(sig_bytes(*self)),
            sig_bytes(flipped) != sig_bytes(*self),
    {
        let corrupted_signature = self.get_ref().clone_with_bit_flipped();
        BasicSigOf::new(corrupted_signature)
    }
}

impl<T> CorruptBytes for BasicSignature<T> {
    type Type = Self;

    open spec fn has_bit_to_flip(&self) -> bool {
        sig_bytes(self.signature).len() > 0
    }

    fn clone_with_bit_flipped(&self) -> (flipped: Self)
        ensures
            sig_bytes(flipped.signature) == flip_last_bit(sig_bytes(self.signature)),
            sig_bytes(flipped.signature) != sig_bytes(self.signature),
            flipped.signer == self.signer,
    {
        let corrupted_signature = self.signature.clone_with_bit_flipped();
        BasicSignature { signature: corrupted_signature, signer: self.signer }
    }
}

impl CorruptBytes for ThresholdEcdsaSigShare {
    type Type = Self;

    open spec fn has_bit_to_flip(&self) -> bool {
        self.sig_share_raw@.len() > 0
    }

    fn clone_with_bit_flipped(&self) -> (flipped: Self)
        ensures
            flipped.sig_share_raw@ == flip_last_bit(self.sig_share_raw@),
            flipped.sig_share_raw@ != self.sig_share_raw@,
    {
        ThresholdEcdsaSigShare { sig_share_raw: self.sig_share_raw.clone_with_bit_flipped() }
    }
}

impl CorruptBytes for ThresholdEcdsaCombinedSignature {
    type Type = Self;

    open spec fn has_bit_to_flip(&self) -> bool {
        self.signature@.len() > 0
    }

    fn clone_with_bit_flipped(&self) -> (flipped: Self)
        ensures
            flipped.signature@ == flip_last_bit(self.signature@),
            flipped.signature@ != self.signature@,
    {
        ThresholdEcdsaCombinedSignature { signature: self.signature.clone_with_bit_flipped() }
    }
}

impl CorruptBytes for Randomness {
    type Type = Self;

    open spec fn has_bit_to_flip(&self) -> bool {
        true
    }

    fn clone_with_bit_flipped(&self) -> (flipped: Self)
        ensures
            flipped.spec_get()@ == flip_last_bit(self.spec_get()@),
            flipped.spec_get()@ != self.spec_get()@,
    {
        Randomness::from(self.get().clone_with_bit_flipped())
    }
}

/// Whether `signer` is the least of `signers`.
pub open spec fn is_first_signer(signers: Set<NodeId>, signer: NodeId) -> bool {
    &&& signers.contains(signer)
    &&& forall|other: NodeId| signers.contains(other) ==> signer <= other
}

/// The least signer of a batch.
pub open spec fn first_signer<V>(signatures: Map<NodeId, V>) -> NodeId {
    choose|signer: NodeId| is_first_signer(signatures.dom(), signer)
}

/// `after` holds the signatures of `before`, with a bit flipped in the
/// signature of the first signer only.
pub open spec fn flipped_in_first<T>(
    before: Map<NodeId, BasicSigOf<T>>,
    after: Map<NodeId, BasicSigOf<T>>,
) -> bool {
    let first = first_signer(before);
    &&& after.dom() == before.dom()
    &&& sig_bytes(after[first]) == flip_last_bit(sig_bytes(before[first]))
    &&& forall|signer: NodeId|
        before.contains_key(signer) && signer != first ==> #[trigger] after[signer]
            == before[signer]
}

/// `after` holds the signatures of `before`, each with a bit flipped.
pub open spec fn flipped_in_all<T>(
    before: Map<NodeId, BasicSigOf<T>>,
    after: Map<NodeId, BasicSigOf<T>>,
) -> bool {
    &&& after.dom() == before.dom()
    &&& forall|signer: NodeId| #[trigger]
        before.contains_key(signer) ==> sig_bytes(after[signer]) == flip_last_bit(
            sig_bytes(before[signer]),
        )
}

/// Flipping a bit in the first signature twice gives back the original
/// signatures.
pub proof fn lemma_flip_first_twice<T>(
    before: Map<NodeId, BasicSigOf<T>>,
    middle: Map<NodeId, BasicSigOf<T>>,
    after: Map<NodeId, BasicSigOf<T>>,
)
    requires
        flipped_in_first(before, middle),
        flipped_in_first(middle, after),
        before.contains_key(first_signer(before)),
        sig_bytes(before[first_signer(before)]).len() > 0,
    ensures
        after.dom() == before.dom(),
        forall|signer: NodeId| #[trigger]
            before.contains_key(signer) ==> sig_bytes(after[signer]) == sig_bytes(before[signer]),
{
    let first = first_signer(before);
    assert(middle.dom() == before.dom());
    assert(first_signer(middle) == first);
    lemma_flip_last_bit_twice(sig_bytes(before[first]));
}

/// Flipping a bit in every signature twice gives back the original
/// signatures.
pub proof fn lemma_flip_all_twice<T>(
    before: Map<NodeId, BasicSigOf<T>>,
    middle: Map<NodeId, BasicSigOf<T>>,
    after: Map<NodeId, BasicSigOf<T>>,
)
    requires
        flipped_in_all(before, middle),
        flipped_in_all(middle, after),
        forall|signer: NodeId| #[trigger]
            before.contains_key(signer) ==> sig_bytes(before[signer]).len() > 0,
    ensures
        after.dom() == before.dom(),
        forall|signer: NodeId| #[trigger]
            before.contains_key(signer) ==> sig_bytes(after[signer]) == sig_bytes(before[signer]),
{
    assert forall|signer: NodeId| #[trigger]
        before.contains_key(signer) implies sig_bytes(after[signer]) == sig_bytes(before[signer]) by {
        assert(middle.contains_key(signer));
        lemma_flip_last_bit_twice(sig_bytes(before[signer]));
    }
}

/// Corrupts a collection of elements containing each some binary data.
///
/// A single element in the collection can be corrupted or all of them.
pub trait CorruptBytesCollection {
    /// Whether the collection holds an element whose data can be corrupted.
    spec fn can_flip_one(&self) -> bool;

    /// Whether the collection is not empty and each of its elements can be corrupted.
    spec fn can_flip_all(&self) -> bool;

    /// Mutates a collection of elements, each containing some binary data,
    /// by flipping a bit in the data held by a *single* element.
    /// Which element in the collection was modified or which bit in the modified element
    /// was flipped is an implementation's detail.
    ///
    /// # Panics
    /// If the collection is empty
    fn flip_a_bit_in_one(&mut self)
        requires
            old(self).can_flip_one(),
    ;

    /// Mutates a collection of elements, each containing some binary data,
    /// by flipping a bit in the data held by *every* element.
    /// Which bit was flipped is an implementation's detail.
    ///
    /// # Panics
    /// If the collection is empty
    fn flip_a_bit_in_all(&mut self)
        requires
            old(self).can_flip_all(),
    ;
}

proof fn lemma_first_signer<V>(signatures: Map<NodeId, V>, keys: Seq<NodeId>)
    requires
        keys.len() > 0,
        keys.to_set() == signatures.dom(),
        forall|i: int, j: int| 0 <= i < j < keys.len() ==> keys[i] < keys[j],
    ensures
        first_signer(signatures) == keys[0],
        signatures.contains_key(keys[0]),
{
    assert(keys.contains(keys[0]));
    assert forall|other: NodeId| signatures.contains_key(other) implies keys[0] <= other by {
        assert(keys.to_set().contains(other));
        let j = choose|j: int| 0 <= j < keys.len() && keys[j] == other;
        if j > 0 {
            assert(keys[0] < keys[j]);
        }
    }
    assert(keys.to_set().contains(keys[0]));
    assert(is_first_signer(signatures.dom(), keys[0]));
    let first = first_signer(signatures);
    assert(is_first_signer(signatures.dom(), first));
    assert(first <= keys[0]);
    assert(keys[0] <= first);
}

proof fn lemma_increasing_signers(signers: Seq<NodeId>)
    requires
        vstd::std_specs::btree::increasing_seq(signers),
    ensures
        forall|i: int, j: int| 0 <= i < j < signers.len() ==> signers[i] < signers[j],
{
    broadcast use vstd::std_specs::btree::group_btree_axioms;

    assert forall|i: int, j: int| 0 <= i < j < signers.len() implies signers[i] < signers[j] by {
        assert(vstd::std_specs::cmp::OrdSpec::cmp_spec(&signers[i], &signers[j]) is Less);
    }
}

/// The signers of a batch, in increasing order.
fn signers_in_order<T>(signatures_map: &BTreeMap<NodeId, BasicSigOf<T>>) -> (signers: Vec<NodeId>)
    ensures
        signers@.to_set() == signatures_map@.dom(),
        signers@.no_duplicates(),
        forall|i: int, j: int| 0 <= i < j < signers@.len() ==> signers@[i] < signers@[j],
{
    broadcast use vstd::std_specs::btree::group_btree_axioms;

    let mut signers: Vec<NodeId> = Vec::new();
    let ghost all = vstd::std_specs::iter::IteratorSpec::remaining(&signatures_map.iter());
    let ghost keys = all.map_values(|entry: (&NodeId, &BasicSigOf<T>)| *entry.0);
    for entry in it: signatures_map.iter()
        invariant
            it.seq() == all,
            keys == all.map_values(|entry: (&NodeId, &BasicSigOf<T>)| *entry.0),
            signers@ == keys.take(it.index()),
    {
        assert(keys.take(it.index() + 1) == keys.take(it.index()).push(keys[it.index()]));
        signers.push(*entry.0);
    }
    assert(keys.take(keys.len() as int) == keys);
    proof {
        lemma_increasing_signers(keys);
        assert forall|i: int, j: int|
            0 <= i < signers@.len() && 0 <= j < signers@.len() && i != j implies signers@[i]
            != signers@[j] by {
            if i < j {
                assert(signers@[i] < signers@[j]);
            } else {
                assert(signers@[j] < signers@[i]);
            }
        }
        assert forall|signer: NodeId| signatures_map@.contains_key(signer) implies signers@.to_set().contains(signer) by {
            assert(all.contains((&signer, &signatures_map@[signer])));
            let k = choose|k: int| 0 <= k < all.len() && all[k] == (&signer, &signatures_map@[signer]);
            assert(signers@[k] == signer);
        }
        assert forall|signer: NodeId| signers@.to_set().contains(signer) implies signatures_map@.contains_key(signer) by {
            let k = choose|k: int| 0 <= k < signers@.len() && signers@[k] == signer;
            assert(signatures_map@.contains_key(*all[k].0));
        }
        assert(signers@.to_set() =~= signatures_map@.dom());
    }
    signers
}

impl<T> CorruptBytesCollection for BasicSignatureBatch<T> {
    open spec fn can_flip_one(&self) -> bool {
        &&& self.signatures_map@.len() > 0
        &&& sig_bytes(self.signatures_map@[first_signer(self.signatures_map@)]).len() > 0
    }

    open spec fn can_flip_all(&self) -> bool {
        &&& self.signatures_map@.len() > 0
        &&& forall|signer: NodeId| #[trigger]
            self.signatures_map@.contains_key(signer) ==> sig_bytes(
                self.signatures_map@[signer],
            ).len() > 0
    }

    fn flip_a_bit_in_one(&mut self)
        ensures
            flipped_in_first(old(self).signatures_map@, final(self).signatures_map@),
    {
        let ghost old_map = self.signatures_map@;
        let signers = signers_in_order(&self.signatures_map);
        proof {
            if signers@.len() == 0 {
                assert(signers@.to_set() =~= Set::empty());
                assert(old_map.dom() =~= Set::empty());
            }
            lemma_first_signer(old_map, signers@);
        }
        let first = signers[0];
        let corrupted = match self.signatures_map.get(&first) {
            Some(signature) => signature.clone_with_bit_flipped(),
            None => {
                assert(false);
                return;
            },
        };
        self.signatures_map.insert(first, corrupted);
        assert(self.signatures_map@.dom() =~= old_map.dom());
    }

    fn flip_a_bit_in_all(&mut self)
        ensures
            flipped_in_all(old(self).signatures_map@, final(self).signatures_map@),
    {
        broadcast use vstd::std_specs::btree::group_btree_axioms;

        let ghost old_map = self.signatures_map@;
        let signers = signers_in_order(&self.signatures_map);
        let mut i: usize = 0;
        while i < signers.len()
            invariant
                i <= signers@.len(),
                signers@.to_set() == old_map.dom(),
                signers@.no_duplicates(),
                self.signatures_map@.dom() == old_map.dom(),
                forall|signer: NodeId| #[trigger]
                    old_map.contains_key(signer) ==> sig_bytes(old_map[signer]).len() > 0,
                forall|k: int|
                    0 <= k < i ==> sig_bytes(#[trigger] self.signatures_map@[signers@[k]])
                        == flip_last_bit(sig_bytes(old_map[signers@[k]])),
                forall|k: int|
                    i <= k < signers@.len() ==> #[trigger] self.signatures_map@[signers@[k]]
                        == old_map[signers@[k]],
            decreases signers@.len() - i,
        {
            let signer = signers[i];
            assert(signers@.to_set().contains(signer));
            let corrupted = match self.signatures_map.get(&signer) {
                Some(signature) => signature.clone_with_bit_flipped(),
                None => {
                    assert(false);
                    return;
                },
            };
            self.signatures_map.insert(signer, corrupted);
            assert(self.signatures_map@.dom() =~= old_map.dom());
            i = i + 1;
        }
        assert forall|signer: NodeId| #[trigger]
            old_map.contains_key(signer) implies sig_bytes(self.signatures_map@[signer])
            == flip_last_bit(sig_bytes(old_map[signer])) by {
            assert(signers@.to_set().contains(signer));
            let k = choose|k: int| 0 <= k < signers@.len() && signers@[k] == signer;
            assert(sig_bytes(self.signatures_map@[signers@[k]]) == flip_last_bit(
                sig_bytes(old_map[signers@[k]]),
            ));
        }
    }
}

impl<T> CorruptBytesCollection for Signed<T, BasicSignatureBatch<T>> {
    open spec fn can_flip_one(&self) -> bool {
        self.signature.can_flip_one()
    }

    open spec fn can_flip_all(&self) -> bool {
        self.signature.can_flip_all()
    }

    fn flip_a_bit_in_one(&mut self)
        ensures
            final(self).content == old(self).content,
            flipped_in_first(
                old(self).signature.signatures_map@,
                final(self).signature.signatures_map@,
            ),
    {
        self.signature.flip_a_bit_in_one();
    }

    fn flip_a_bit_in_all(&mut self)
        ensures
            final(self).content == old(self).content,
            flipped_in_all(old(self).signature.signatures_map@, final(self).signature.signatures_map@),
    {
        self.signature.flip_a_bit_in_all();
    }
}

} // verus!
