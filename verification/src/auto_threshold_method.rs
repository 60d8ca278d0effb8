//! The algorithm used to reduce grayscale data to black and white.

use vstd::prelude::*;

verus! {

/// The algorithm used to reduce grayscale data to black and white.
///
/// The native library numbers these options consecutively from zero, in the
/// order declared here, so the declaration order is part of the contract.
#[derive(Clone, Copy, Debug, PartialEq, Eq, Structural)]
pub enum AutoThresholdMethod {
    Undefined,
    Kapur,
    OTSU,
    Triangle,
}

impl AutoThresholdMethod {
    /// The native tag a variant maps to.
    pub open spec fn as_native(self) -> u32 {
        match self {
            AutoThresholdMethod::Undefined => 0,
            AutoThresholdMethod::Kapur => 1,
            AutoThresholdMethod::OTSU => 2,
            AutoThresholdMethod::Triangle => 3,
        }
    }

    /// The greatest native tag with a defined meaning for this option.
    pub open spec fn max_native() -> u32 {
        3
    }

    /// The variant a native tag maps back to.  A newer native library may
    /// define tags beyond the declared ones, so a tag above the greatest
    /// declared one falls back to `AutoThresholdMethod::Undefined`.
    pub open spec fn of_native(v: u32) -> AutoThresholdMethod {
        if v == 0 {
            AutoThresholdMethod::Undefined
        } else if v == 1 {
            AutoThresholdMethod::Kapur
        } else if v == 2 {
            AutoThresholdMethod::OTSU
        } else if v == 3 {
            AutoThresholdMethod::Triangle
        } else {
            AutoThresholdMethod::Undefined
        }
    }

    /// Safe-to-native conversion: total and infallible.
    pub fn to_native(self) -> (r: u32)
        ensures
            r == self.as_native(),
    {
        match self {
            AutoThresholdMethod::Undefined => 0,
            AutoThresholdMethod::Kapur => 1,
            AutoThresholdMethod::OTSU => 2,
            AutoThresholdMethod::Triangle => 3,
        }
    }

    /// Native-to-safe conversion: total, with the fallback described at
    /// [`AutoThresholdMethod::of_native`] for unrecognized tags.
    pub fn from_native(v: u32) -> (r: AutoThresholdMethod)
        ensures
            r == AutoThresholdMethod::of_native(v),
    {
        if v == 0 {
            AutoThresholdMethod::Undefined
        } else if v == 1 {
            AutoThresholdMethod::Kapur
        } else if v == 2 {
            AutoThresholdMethod::OTSU
        } else if v == 3 {
            AutoThresholdMethod::Triangle
        } else {
            AutoThresholdMethod::Undefined
        }
    }

    /// Law: mapping a variant to its native tag and back returns the variant.
    pub proof fn lemma_native_roundtrip(self)
        ensures
            AutoThresholdMethod::of_native(self.as_native()) == self,
    {
    }

    /// Law: every tag above the greatest defined one, not just the next,
    /// falls back to the default variant rather than failing.
    pub proof fn lemma_unknown_tag_default(v: u32)
        requires
            v > AutoThresholdMethod::max_native(),
        ensures
            AutoThresholdMethod::of_native(v) == AutoThresholdMethod::Undefined,
    {
    }
}

impl Default for AutoThresholdMethod {
    /// The documented default variant, also the fallback of [`AutoThresholdMethod::of_native`].
    fn default() -> (r: Self)
        ensures
            r == AutoThresholdMethod::Undefined,
    {
        AutoThresholdMethod::Undefined
    }
}

} // verus!
