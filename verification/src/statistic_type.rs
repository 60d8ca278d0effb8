//! The statistic gathered from a pixel neighborhood.

use vstd::prelude::*;

verus! {

/// The statistic gathered from a pixel neighborhood.
///
/// The native library numbers these options consecutively from zero, in the
/// order declared here, so the declaration order is part of the contract.
#[derive(Clone, Copy, Debug, PartialEq, Eq, Structural)]
pub enum StatisticType {
    Undefined,
    Gradient,
    Maximum,
    Mean,
    Median,
    Minimum,
    Mode,
    Nonpeak,
    RootMeanSquare,
    StandardDeviation,
    Contrast,
}

impl StatisticType {
    /// The native tag a variant maps to.
    pub open spec fn as_native(self) -> u32 {
        match self {
            StatisticType::Undefined => 0,
            StatisticType::Gradient => 1,
            StatisticType::Maximum => 2,
            StatisticType::Mean => 3,
            StatisticType::Median => 4,
            StatisticType::Minimum => 5,
            StatisticType::Mode => 6,
            StatisticType::Nonpeak => 7,
            StatisticType::RootMeanSquare => 8,
            StatisticType::StandardDeviation => 9,
            StatisticType::Contrast => 10,
        }
    }

    /// The greatest native tag with a defined meaning for this option.
    pub open spec fn max_native() -> u32 {
        10
    }

    /// The variant a native tag maps back to.  A newer native library may
    /// define tags beyond the declared ones, so a tag above the greatest
    /// declared one falls back to `StatisticType::Undefined`.
    pub open spec fn of_native(v: u32) -> StatisticType {
        if v == 0 {
            StatisticType::Undefined
        } else if v == 1 {
            StatisticType::Gradient
        } else if v == 2 {
            StatisticType::Maximum
        } else if v == 3 {
            StatisticType::Mean
        } else if v == 4 {
            StatisticType::Median
        } else if v == 5 {
            StatisticType::Minimum
        } else if v == 6 {
            StatisticType::Mode
        } else if v == 7 {
            StatisticType::Nonpeak
        } else if v == 8 {
            StatisticType::RootMeanSquare
        } else if v == 9 {
            StatisticType::StandardDeviation
        } else if v == 10 {
            StatisticType::Contrast
        } else {
            StatisticType::Undefined
        }
    }

    /// Safe-to-native conversion: total and infallible.
    pub fn to_native(self) -> (r: u32)
        ensures
            r == self.as_native(),
    {
        match self {
            StatisticType::Undefined => 0,
            StatisticType::Gradient => 1,
            StatisticType::Maximum => 2,
            StatisticType::Mean => 3,
            StatisticType::Median => 4,
            StatisticType::Minimum => 5,
            StatisticType::Mode => 6,
            StatisticType::Nonpeak => 7,
            StatisticType::RootMeanSquare => 8,
            StatisticType::StandardDeviation => 9,
            StatisticType::Contrast => 10,
        }
    }

    /// Native-to-safe conversion: total, with the fallback described at
    /// [`StatisticType::of_native`] for unrecognized tags.
    pub fn from_native(v: u32) -> (r: StatisticType)
        ensures
            r == StatisticType::of_native(v),
    {
        if v == 0 {
            StatisticType::Undefined
        } else if v == 1 {
            StatisticType::Gradient
        } else if v == 2 {
            StatisticType::Maximum
        } else if v == 3 {
            StatisticType::Mean
        } else if v == 4 {
            StatisticType::Median
        } else if v == 5 {
            StatisticType::Minimum
        } else if v == 6 {
            StatisticType::Mode
        } else if v == 7 {
            StatisticType::Nonpeak
        } else if v == 8 {
            StatisticType::RootMeanSquare
        } else if v == 9 {
            StatisticType::StandardDeviation
        } else if v == 10 {
            StatisticType::Contrast
        } else {
            StatisticType::Undefined
        }
    }

    /// Law: mapping a variant to its native tag and back returns the variant.
    pub proof fn lemma_native_roundtrip(self)
        ensures
            StatisticType::of_native(self.as_native()) == self,
    {
    }

    /// Law: every tag above the greatest defined one, not just the next,
    /// falls back to the default variant rather than failing.
    pub proof fn lemma_unknown_tag_default(v: u32)
        requires
            v > StatisticType::max_native(),
        ensures
            StatisticType::of_native(v) == StatisticType::Undefined,
    {
    }
}

impl Default for StatisticType {
    /// The documented default variant, also the fallback of [`StatisticType::of_native`].
    fn default() -> (r: Self)
        ensures
            r == StatisticType::Undefined,
    {
        StatisticType::Undefined
    }
}

} // verus!
