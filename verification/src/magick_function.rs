//! The function applied to every pixel of an image.

use vstd::prelude::*;

verus! {

/// The function applied to every pixel of an image.
///
/// The native library numbers these options consecutively from zero, in the
/// order declared here, so the declaration order is part of the contract.
#[derive(Clone, Copy, Debug, PartialEq, Eq, Structural)]
pub enum MagickFunction {
    Undefined,
    Arcsin,
    Arctan,
    Polynomial,
    Sinusoid,
}

impl MagickFunction {
    /// The native tag a variant maps to.
    pub open spec fn as_native(self) -> u32 {
        match self {
            MagickFunction::Undefined => 0,
            MagickFunction::Arcsin => 1,
            MagickFunction::Arctan => 2,
            MagickFunction::Polynomial => 3,
            MagickFunction::Sinusoid => 4,
        }
    }

    /// The greatest native tag with a defined meaning for this option.
    pub open spec fn max_native() -> u32 {
        4
    }

    /// The variant a native tag maps back to.  A newer native library may
    /// define tags beyond the declared ones, so a tag above the greatest
    /// declared one falls back to `MagickFunction::Undefined`.
    pub open spec fn of_native(v: u32) -> MagickFunction {
        if v == 0 {
            MagickFunction::Undefined
        } else if v == 1 {
            MagickFunction::Arcsin
        } else if v == 2 {
            MagickFunction::Arctan
        } else if v == 3 {
            MagickFunction::Polynomial
        } else if v == 4 {
            MagickFunction::Sinusoid
        } else {
            MagickFunction::Undefined
        }
    }

    /// Safe-to-native conversion: total and infallible.
    pub fn to_native(self) -> (r: u32)
        ensures
            r == self.as_native(),
    {
        match self {
            MagickFunction::Undefined => 0,
            MagickFunction::Arcsin => 1,
            MagickFunction::Arctan => 2,
            MagickFunction::Polynomial => 3,
            MagickFunction::Sinusoid => 4,
        }
    }

    /// Native-to-safe conversion: total, with the fallback described at
    /// [`MagickFunction::of_native`] for unrecognized tags.
    pub fn from_native(v: u32) -> (r: MagickFunction)
        ensures
            r == MagickFunction::of_native(v),
    {
        if v == 0 {
            MagickFunction::Undefined
        } else if v == 1 {
            MagickFunction::Arcsin
        } else if v == 2 {
            MagickFunction::Arctan
        } else if v == 3 {
            MagickFunction::Polynomial
        } else if v == 4 {
            MagickFunction::Sinusoid
        } else {
            MagickFunction::Undefined
        }
    }

    /// Law: mapping a variant to its native tag and back returns the variant.
    pub proof fn lemma_native_roundtrip(self)
        ensures
            MagickFunction::of_native(self.as_native()) == self,
    {
    }

    /// Law: every tag above the greatest defined one, not just the next,
    /// falls back to the default variant rather than failing.
    pub proof fn lemma_unknown_tag_default(v: u32)
        requires
            v > MagickFunction::max_native(),
        ensures
            MagickFunction::of_native(v) == MagickFunction::Undefined,
    {
    }
}

impl Default for MagickFunction {
    /// The documented default variant, also the fallback of [`MagickFunction::of_native`].
    fn default() -> (r: Self)
        ensures
            r == MagickFunction::Undefined,
    {
        MagickFunction::Undefined
    }
}

} // verus!
