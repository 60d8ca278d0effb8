//! The byte order used by formats that support both.

use vstd::prelude::*;

verus! {

/// The byte order used by formats that support both.
///
/// The native library numbers these options consecutively from zero, in the
/// order declared here, so the declaration order is part of the contract.
#[derive(Clone, Copy, Debug, PartialEq, Eq, Structural)]
pub enum EndianType {
    Undefined,
    LSB,
    MSB,
}

impl EndianType {
    /// The native tag a variant maps to.
    pub open spec fn as_native(self) -> u32 {
        match self {
            EndianType::Undefined => 0,
            EndianType::LSB => 1,
            EndianType::MSB => 2,
        }
    }

    /// The greatest native tag with a defined meaning for this option.
    pub open spec fn max_native() -> u32 {
        2
    }

    /// The variant a native tag maps back to.  A newer native library may
    /// define tags beyond the declared ones, so a tag above the greatest
    /// declared one falls back to `EndianType::Undefined`.
    pub open spec fn of_native(v: u32) -> EndianType {
        if v == 0 {
            EndianType::Undefined
        } else if v == 1 {
            EndianType::LSB
        } else if v == 2 {
            EndianType::MSB
        } else {
            EndianType::Undefined
        }
    }

    /// Safe-to-native conversion: total and infallible.
    pub fn to_native(self) -> (r: u32)
        ensures
            r == self.as_native(),
    {
        match self {
            EndianType::Undefined => 0,
            EndianType::LSB => 1,
            EndianType::MSB => 2,
        }
    }

    /// Native-to-safe conversion: total, with the fallback described at
    /// [`EndianType::of_native`] for unrecognized tags.
    pub fn from_native(v: u32) -> (r: EndianType)
        ensures
            r == EndianType::of_native(v),
    {
        if v == 0 {
            EndianType::Undefined
        } else if v == 1 {
            EndianType::LSB
        } else if v == 2 {
            EndianType::MSB
        } else {
            EndianType::Undefined
        }
    }

    /// Law: mapping a variant to its native tag and back returns the variant.
    pub proof fn lemma_native_roundtrip(self)
        ensures
            EndianType::of_native(self.as_native()) == self,
    {
    }

    /// Law: every tag above the greatest defined one, not just the next,
    /// falls back to the default variant rather than failing.
    pub proof fn lemma_unknown_tag_default(v: u32)
        requires
            v > EndianType::max_native(),
        ensures
            EndianType::of_native(v) == EndianType::Undefined,
    {
    }
}

impl Default for EndianType {
    /// The documented default variant, also the fallback of [`EndianType::of_native`].
    fn default() -> (r: Self)
        ensures
            r == EndianType::Undefined,
    {
        EndianType::Undefined
    }
}

} // verus!
