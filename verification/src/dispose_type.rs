//! The how a frame of a layered image is disposed of before the next one.

use vstd::prelude::*;

verus! {

/// The how a frame of a layered image is disposed of before the next one.
///
/// The native library numbers these options consecutively from zero, in the
/// order declared here, so the declaration order is part of the contract.
#[derive(Clone, Copy, Debug, PartialEq, Eq, Structural)]
pub enum DisposeType {
    Undefined,
    NoneDispose,
    Background,
    Previous,
}

impl DisposeType {
    /// The native tag a variant maps to.
    pub open spec fn as_native(self) -> u32 {
        match self {
            DisposeType::Undefined => 0,
            DisposeType::NoneDispose => 1,
            DisposeType::Background => 2,
            DisposeType::Previous => 3,
        }
    }

    /// The greatest native tag with a defined meaning for this option.
    pub open spec fn max_native() -> u32 {
        3
    }

    /// The variant a native tag maps back to.  A newer native library may
    /// define tags beyond the declared ones, so a tag above the greatest
    /// declared one falls back to `DisposeType::Undefined`.
    pub open spec fn of_native(v: u32) -> DisposeType {
        if v == 0 {
            DisposeType::Undefined
        } else if v == 1 {
            DisposeType::NoneDispose
        } else if v == 2 {
            DisposeType::Background
        } else if v == 3 {
            DisposeType::Previous
        } else {
            DisposeType::Undefined
        }
    }

    /// Safe-to-native conversion: total and infallible.
    pub fn to_native(self) -> (r: u32)
        ensures
            r == self.as_native(),
    {
        match self {
            DisposeType::Undefined => 0,
            DisposeType::NoneDispose => 1,
            DisposeType::Background => 2,
            DisposeType::Previous => 3,
        }
    }

    /// Native-to-safe conversion: total, with the fallback described at
    /// [`DisposeType::of_native`] for unrecognized tags.
    pub fn from_native(v: u32) -> (r: DisposeType)
        ensures
            r == DisposeType::of_native(v),
    {
        if v == 0 {
            DisposeType::Undefined
        } else if v == 1 {
            DisposeType::NoneDispose
        } else if v == 2 {
            DisposeType::Background
        } else if v == 3 {
            DisposeType::Previous
        } else {
            DisposeType::Undefined
        }
    }

    /// Law: mapping a variant to its native tag and back returns the variant.
    pub proof fn lemma_native_roundtrip(self)
        ensures
            DisposeType::of_native(self.as_native()) == self,
    {
    }

    /// Law: every tag above the greatest defined one, not just the next,
    /// falls back to the default variant rather than failing.
    pub proof fn lemma_unknown_tag_default(v: u32)
        requires
            v > DisposeType::max_native(),
        ensures
            DisposeType::of_native(v) == DisposeType::Undefined,
    {
    }
}

impl Default for DisposeType {
    /// The documented default variant, also the fallback of [`DisposeType::of_native`].
    fn default() -> (r: Self)
        ensures
            r == DisposeType::Undefined,
    {
        DisposeType::Undefined
    }
}

} // verus!
