//! The unit an image's resolution is expressed in.

use vstd::prelude::*;

verus! {

/// The unit an image's resolution is expressed in.
///
/// The native library numbers these options consecutively from zero, in the
/// order declared here, so the declaration order is part of the contract.
#[derive(Clone, Copy, Debug, PartialEq, Eq, Structural)]
pub enum ResolutionType {
    Undefined,
    PixelsPerInch,
    PixelsPerCentimeter,
}

impl ResolutionType {
    /// The native tag a variant maps to.
    pub open spec fn as_native(self) -> u32 {
        match self {
            ResolutionType::Undefined => 0,
            ResolutionType::PixelsPerInch => 1,
            ResolutionType::PixelsPerCentimeter => 2,
        }
    }

    /// The greatest native tag with a defined meaning for this option.
    pub open spec fn max_native() -> u32 {
        2
    }

    /// The variant a native tag maps back to.  A newer native library may
    /// define tags beyond the declared ones, so a tag above the greatest
    /// declared one falls back to `ResolutionType::Undefined`.
    pub open spec fn of_native(v: u32) -> ResolutionType {
        if v == 0 {
            ResolutionType::Undefined
        } else if v == 1 {
            ResolutionType::PixelsPerInch
        } else if v == 2 {
            ResolutionType::PixelsPerCentimeter
        } else {
            ResolutionType::Undefined
        }
    }

    /// Safe-to-native conversion: total and infallible.
    pub fn to_native(self) -> (r: u32)
        ensures
            r == self.as_native(),
    {
        match self {
            ResolutionType::Undefined => 0,
            ResolutionType::PixelsPerInch => 1,
            ResolutionType::PixelsPerCentimeter => 2,
        }
    }

    /// Native-to-safe conversion: total, with the fallback described at
    /// [`ResolutionType::of_native`] for unrecognized tags.
    pub fn from_native(v: u32) -> (r: ResolutionType)
        ensures
            r == ResolutionType::of_native(v),
    {
        if v == 0 {
            ResolutionType::Undefined
        } else if v == 1 {
            ResolutionType::PixelsPerInch
        } else if v == 2 {
            ResolutionType::PixelsPerCentimeter
        } else {
            ResolutionType::Undefined
        }
    }

    /// Law: mapping a variant to its native tag and back returns the variant.
    pub proof fn lemma_native_roundtrip(self)
        ensures
            ResolutionType::of_native(self.as_native()) == self,
    {
    }

    /// Law: every tag above the greatest defined one, not just the next,
    /// falls back to the default variant rather than failing.
    pub proof fn lemma_unknown_tag_default(v: u32)
        requires
            v > ResolutionType::max_native(),
        ensures
            ResolutionType::of_native(v) == ResolutionType::Undefined,
    {
    }
}

impl Default for ResolutionType {
    /// The documented default variant, also the fallback of [`ResolutionType::of_native`].
    fn default() -> (r: Self)
        ensures
            r == ResolutionType::Undefined,
    {
        ResolutionType::Undefined
    }
}

} // verus!
