//! Quantities of the nervous system messages that the proposals to create a
//! service nervous system carry.
use vstd::prelude::*;
use crate::content::SameContent;

verus! {

/// A length of time, in seconds.
#[derive(Copy, Debug, PartialEq, Eq, Structural, Default)]
pub struct Duration {
    pub seconds: Option<u64>,
}

impl Clone for Duration {
    fn clone(&self) -> (cloned: Self)
        ensures
            cloned == *self,
    {
        *self
    }
}

impl SameContent for Duration {
    open spec fn same_content(&self, other: &Self) -> bool {
        *self == *other
    }
}

/// A time of day, in seconds after midnight UTC.
#[derive(Copy, Debug, PartialEq, Eq, Structural, Default)]
pub struct GlobalTimeOfDay {
    pub seconds_after_utc_midnight: Option<u64>,
}

impl Clone for GlobalTimeOfDay {
    fn clone(&self) -> (cloned: Self)
        ensures
            cloned == *self,
    {
        *self
    }
}

impl SameContent for GlobalTimeOfDay {
    open spec fn same_content(&self, other: &Self) -> bool {
        *self == *other
    }
}

/// An amount of tokens, in e8s.
#[derive(Copy, Debug, PartialEq, Eq, Structural, Default)]
pub struct Tokens {
    pub e8s: Option<u64>,
}

impl Clone for Tokens {
    fn clone(&self) -> (cloned: Self)
        ensures
            cloned == *self,
    {
        *self
    }
}

impl SameContent for Tokens {
    open spec fn same_content(&self, other: &Self) -> bool {
        *self == *other
    }
}

/// A percentage, in basis points.
#[derive(Copy, Debug, PartialEq, Eq, Structural, Default)]
pub struct Percentage {
    pub basis_points: Option<u64>,
}

impl Clone for Percentage {
    fn clone(&self) -> (cloned: Self)
        ensures
            cloned == *self,
    {
        *self
    }
}

impl SameContent for Percentage {
    open spec fn same_content(&self, other: &Self) -> bool {
        *self == *other
    }
}

/// An image, encoded in base 64.
#[derive(Debug, PartialEq, Eq, Default)]
pub struct Image {
    pub base64_encoding: Option<String>,
}

impl Clone for Image {
    fn clone(&self) -> (cloned: Self)
        ensures
            cloned.same_content(self),
    {
        Image {
            base64_encoding: self.base64_encoding.clone(),
        }
    }
}

impl SameContent for Image {
    open spec fn same_content(&self, other: &Self) -> bool {
        &&& self.base64_encoding.same_content(&other.base64_encoding)
    }
}

/// A canister, given by its principal.
#[derive(Copy, Debug, PartialEq, Eq, Default)]
pub struct Canister {
    pub id: Option<crate::ids::PrincipalId>,
}

impl Clone for Canister {
    fn clone(&self) -> (cloned: Self)
        ensures
            cloned == *self,
    {
        *self
    }
}

impl SameContent for Canister {
    open spec fn same_content(&self, other: &Self) -> bool {
        *self == *other
    }
}

/// A list of countries, given by their ISO codes.
#[derive(Debug, PartialEq, Eq, Default)]
pub struct Countries {
    pub iso_codes: Vec<String>,
}

impl Clone for Countries {
    fn clone(&self) -> (cloned: Self)
        ensures
            cloned.same_content(self),
    {
        Countries {
            iso_codes: self.iso_codes.clone(),
        }
    }
}

impl SameContent for Countries {
    open spec fn same_content(&self, other: &Self) -> bool {
        &&& self.iso_codes.same_content(&other.iso_codes)
    }
}

} // verus!
