//! The values of the crypto types that the test utilities read and corrupt.
use vstd::prelude::*;
use std::collections::BTreeMap;
use std::marker::PhantomData;

verus! {

/// A node, given by a number. Signers are ordered by these numbers; a caller
/// whose node ids are ordered otherwise passes each node's position in its own
/// order, so that the two orders agree.
pub type NodeId = u64;

/// The bytes of a basic signature.
#[derive(Clone, Debug, PartialEq, Eq, Hash, Default)]
pub struct BasicSig(pub Vec<u8>);

/// A basic signature of a value of type `T`.
#[derive(Debug, PartialEq, Eq, Hash)]
pub struct BasicSigOf<T> {
    signature: BasicSig,
    _marker: PhantomData<T>,
}

impl<T> BasicSigOf<T> {
    /// The signature that this value holds.
    pub closed spec fn spec_get_ref(&self) -> BasicSig {
        self.signature
    }

    /// Two signatures of values of type `T` are equal when they hold equal signatures.
    pub proof fn lemma_equal_by_signature(self, other: Self)
        requires
            self.spec_get_ref() == other.spec_get_ref(),
        ensures
            self == other,
    {
    }

    /// Wraps `signature` as a signature of a value of type `T`.
    pub fn new(signature: BasicSig) -> (sig: Self)
        ensures
            sig.spec_get_ref() == signature,
    {
        BasicSigOf { signature, _marker: PhantomData }
    }

    /// The signature that this value holds.
    pub fn get_ref(&self) -> (signature: &BasicSig)
        ensures
            *signature == self.spec_get_ref(),
    {
        &self.signature
    }
}

impl<T> Clone for BasicSigOf<T> {
    fn clone(&self) -> (cloned: Self)
        ensures
            cloned.spec_get_ref().0@ == self.spec_get_ref().0@,
    {
        BasicSigOf { signature: BasicSig(self.signature.0.clone()), _marker: PhantomData }
    }
}

/// A basic signature together with the node that made it.
#[derive(Clone, Debug, PartialEq, Eq, Hash)]
pub struct BasicSignature<T> {
    pub signature: BasicSigOf<T>,
    pub signer: NodeId,
}

/// The basic signatures of several nodes on one value.
#[derive(Clone, Debug, PartialEq, Eq, Default)]
pub struct BasicSignatureBatch<T> {
    pub signatures_map: BTreeMap<NodeId, BasicSigOf<T>>,
}

/// A value together with a signature on it.
#[derive(Clone, Debug, PartialEq, Eq)]
pub struct Signed<T, S> {
    pub content: T,
    pub signature: S,
}

/// A share of a threshold ECDSA signature.
#[derive(Clone, Debug, PartialEq, Eq, Default)]
pub struct ThresholdEcdsaSigShare {
    pub sig_share_raw: Vec<u8>,
}

/// A combined threshold ECDSA signature.
#[derive(Clone, Debug, PartialEq, Eq, Default)]
pub struct ThresholdEcdsaCombinedSignature {
    pub signature: Vec<u8>,
}

/// Thirty-two bytes of randomness.
#[derive(Clone, Copy, Debug, PartialEq, Eq, Hash)]
pub struct Randomness(pub [u8; 32]);

impl Randomness {
    /// The bytes of this randomness.
    pub open spec fn spec_get(&self) -> [u8; 32] {
        self.0
    }

    /// The bytes of this randomness.
    pub fn get(&self) -> (bytes: [u8; 32])
        ensures
            bytes == self.spec_get(),
    {
        self.0
    }
}

impl From<[u8; 32]> for Randomness {
    fn from(bytes: [u8; 32]) -> (randomness: Randomness) {
        Randomness(bytes)
    }
}

impl vstd::std_specs::convert::FromSpecImpl<[u8; 32]> for Randomness {
    open spec fn obeys_from_spec() -> bool {
        true
    }

    open spec fn from_spec(bytes: [u8; 32]) -> Randomness {
        Randomness(bytes)
    }
}

} // verus!
