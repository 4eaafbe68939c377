//! What it means for two values of the governance messages to hold the same
//! content: equal numbers, flags and strings, collections of equal length
//! whose items hold the same content, maps with equal entries, and the same
//! variant with the same content inside.
use vstd::prelude::*;
use std::collections::{BTreeMap, HashMap};

verus! {

/// Values that can hold the same content as another value of their type.
pub trait SameContent {
    /// Whether `self` holds the same content as `other`.
    spec fn same_content(&self, other: &Self) -> bool;
}

impl SameContent for u8 {
    open spec fn same_content(&self, other: &Self) -> bool {
        *self == *other
    }
}

impl SameContent for u32 {
    open spec fn same_content(&self, other: &Self) -> bool {
        *self == *other
    }
}

impl SameContent for u64 {
    open spec fn same_content(&self, other: &Self) -> bool {
        *self == *other
    }
}

impl SameContent for i32 {
    open spec fn same_content(&self, other: &Self) -> bool {
        *self == *other
    }
}

impl SameContent for bool {
    open spec fn same_content(&self, other: &Self) -> bool {
        *self == *other
    }
}

impl SameContent for String {
    open spec fn same_content(&self, other: &Self) -> bool {
        *self == *other
    }
}

impl<T: SameContent> SameContent for Option<T> {
    open spec fn same_content(&self, other: &Self) -> bool {
        match (self, other) {
            (None, None) => true,
            (Some(a), Some(b)) => a.same_content(b),
            _ => false,
        }
    }
}

impl<T: SameContent> SameContent for Vec<T> {
    open spec fn same_content(&self, other: &Self) -> bool {
        &&& self@.len() == other@.len()
        &&& forall|i: int| 0 <= i < self@.len() ==> #[trigger] self@[i].same_content(&other@[i])
    }
}

impl<K, V> SameContent for HashMap<K, V> {
    open spec fn same_content(&self, other: &Self) -> bool {
        self@ == other@
    }
}

impl<K, V> SameContent for BTreeMap<K, V> {
    open spec fn same_content(&self, other: &Self) -> bool {
        self@ == other@
    }
}

} // verus!
