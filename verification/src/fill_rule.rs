//! The rule deciding which regions a path encloses.

use vstd::prelude::*;

verus! {

/// The rule deciding which regions a path encloses.
///
/// The native library numbers these options consecutively from zero, in the
/// order declared here, so the declaration order is part of the contract.
#[derive(Clone, Copy, Debug, PartialEq, Eq, Structural)]
pub enum FillRule {
    Undefined,
    EvenOdd,
    NonZero,
}

impl FillRule {
    /// The native tag a variant maps to.
    pub open spec fn as_native(self) -> u32 {
        match self {
            FillRule::Undefined => 0,
            FillRule::EvenOdd => 1,
            FillRule::NonZero => 2,
        }
    }

    /// The greatest native tag with a defined meaning for this option.
    pub open spec fn max_native() -> u32 {
        2
    }

    /// The variant a native tag maps back to.  A newer native library may
    /// define tags beyond the declared ones, so a tag above the greatest
    /// declared one falls back to `FillRule::Undefined`.
    pub open spec fn of_native(v: u32) -> FillRule {
        if v == 0 {
            FillRule::Undefined
        } else if v == 1 {
            FillRule::EvenOdd
        } else if v == 2 {
            FillRule::NonZero
        } else {
            FillRule::Undefined
        }
    }

    /// Safe-to-native conversion: total and infallible.
    pub fn to_native(self) -> (r: u32)
        ensures
            r == self.as_native(),
    {
        match self {
            FillRule::Undefined => 0,
            FillRule::EvenOdd => 1,
            FillRule::NonZero => 2,
        }
    }

    /// Native-to-safe conversion: total, with the fallback described at
    /// [`FillRule::of_native`] for unrecognized tags.
    pub fn from_native(v: u32) -> (r: FillRule)
        ensures
            r == FillRule::of_native(v),
    {
        if v == 0 {
            FillRule::Undefined
        } else if v == 1 {
            FillRule::EvenOdd
        } else if v == 2 {
            FillRule::NonZero
        } else {
            FillRule::Undefined
        }
    }

    /// Law: mapping a variant to its native tag and back returns the variant.
    pub proof fn lemma_native_roundtrip(self)
        ensures
            FillRule::of_native(self.as_native()) == self,
    {
    }

    /// Law: every tag above the greatest defined one, not just the next,
    /// falls back to the default variant rather than failing.
    pub proof fn lemma_unknown_tag_default(v: u32)
        requires
            v > FillRule::max_native(),
        ensures
            FillRule::of_native(v) == FillRule::Undefined,
    {
    }
}

impl Default for FillRule {
    /// The documented default variant, also the fallback of [`FillRule::of_native`].
    fn default() -> (r: Self)
        ensures
            r == FillRule::Undefined,
    {
        FillRule::Undefined
    }
}

} // verus!
