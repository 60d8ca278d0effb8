//! The error metric used when two images are compared.

use vstd::prelude::*;

verus! {

/// The error metric used when two images are compared.
///
/// The native library numbers these options consecutively from zero, in the
/// order declared here, so the declaration order is part of the contract.
#[derive(Clone, Copy, Debug, PartialEq, Eq, Structural)]
pub enum MetricType {
    Undefined,
    Absolute,
    Fuzz,
    MeanAbsolute,
    MeanErrorPerPixel,
    MeanSquared,
    NormalizedCrossCorrelation,
    PeakAbsolute,
    PeakSignalToNoiseRatio,
    PerceptualHash,
    RootMeanSquared,
    StructuralSimilarity,
    StructuralDissimilarity,
}

impl MetricType {
    /// The native tag a variant maps to.
    pub open spec fn as_native(self) -> u32 {
        match self {
            MetricType::Undefined => 0,
            MetricType::Absolute => 1,
            MetricType::Fuzz => 2,
            MetricType::MeanAbsolute => 3,
            MetricType::MeanErrorPerPixel => 4,
            MetricType::MeanSquared => 5,
            MetricType::NormalizedCrossCorrelation => 6,
            MetricType::PeakAbsolute => 7,
            MetricType::PeakSignalToNoiseRatio => 8,
            MetricType::PerceptualHash => 9,
            MetricType::RootMeanSquared => 10,
            MetricType::StructuralSimilarity => 11,
            MetricType::StructuralDissimilarity => 12,
        }
    }

    /// The greatest native tag with a defined meaning for this option.
    pub open spec fn max_native() -> u32 {
        12
    }

    /// The variant a native tag maps back to.  A newer native library may
    /// define tags beyond the declared ones, so a tag above the greatest
    /// declared one falls back to `MetricType::Absolute`.
    pub open spec fn of_native(v: u32) -> MetricType {
        if v == 0 {
            MetricType::Undefined
        } else if v == 1 {
            MetricType::Absolute
        } else if v == 2 {
            MetricType::Fuzz
        } else if v == 3 {
            MetricType::MeanAbsolute
        } else if v == 4 {
            MetricType::MeanErrorPerPixel
        } else if v == 5 {
            MetricType::MeanSquared
        } else if v == 6 {
            MetricType::NormalizedCrossCorrelation
        } else if v == 7 {
            MetricType::PeakAbsolute
        } else if v == 8 {
            MetricType::PeakSignalToNoiseRatio
        } else if v == 9 {
            MetricType::PerceptualHash
        } else if v == 10 {
            MetricType::RootMeanSquared
        } else if v == 11 {
            MetricType::StructuralSimilarity
        } else if v == 12 {
            MetricType::StructuralDissimilarity
        } else {
            MetricType::Absolute
        }
    }

    /// Safe-to-native conversion: total and infallible.
    pub fn to_native(self) -> (r: u32)
        ensures
            r == self.as_native(),
    {
        match self {
            MetricType::Undefined => 0,
            MetricType::Absolute => 1,
            MetricType::Fuzz => 2,
            MetricType::MeanAbsolute => 3,
            MetricType::MeanErrorPerPixel => 4,
            MetricType::MeanSquared => 5,
            MetricType::NormalizedCrossCorrelation => 6,
            MetricType::PeakAbsolute => 7,
            MetricType::PeakSignalToNoiseRatio => 8,
            MetricType::PerceptualHash => 9,
            MetricType::RootMeanSquared => 10,
            MetricType::StructuralSimilarity => 11,
            MetricType::StructuralDissimilarity => 12,
        }
    }

    /// Native-to-safe conversion: total, with the fallback described at
    /// [`MetricType::of_native`] for unrecognized tags.
    pub fn from_native(v: u32) -> (r: MetricType)
        ensures
            r == MetricType::of_native(v),
    {
        if v == 0 {
            MetricType::Undefined
        } else if v == 1 {
            MetricType::Absolute
        } else if v == 2 {
            MetricType::Fuzz
        } else if v == 3 {
            MetricType::MeanAbsolute
        } else if v == 4 {
            MetricType::MeanErrorPerPixel
        } else if v == 5 {
            MetricType::MeanSquared
        } else if v == 6 {
            MetricType::NormalizedCrossCorrelation
        } else if v == 7 {
            MetricType::PeakAbsolute
        } else if v == 8 {
            MetricType::PeakSignalToNoiseRatio
        } else if v == 9 {
            MetricType::PerceptualHash
        } else if v == 10 {
            MetricType::RootMeanSquared
        } else if v == 11 {
            MetricType::StructuralSimilarity
        } else if v == 12 {
            MetricType::StructuralDissimilarity
        } else {
            MetricType::Absolute
        }
    }

    /// Law: mapping a variant to its native tag and back returns the variant.
    pub proof fn lemma_native_roundtrip(self)
        ensures
            MetricType::of_native(self.as_native()) == self,
    {
    }

    /// Law: every tag above the greatest defined one, not just the next,
    /// falls back to the default variant rather than failing.
    pub proof fn lemma_unknown_tag_default(v: u32)
        requires
            v > MetricType::max_native(),
        ensures
            MetricType::of_native(v) == MetricType::Absolute,
    {
    }
}

impl Default for MetricType {
    /// The documented default variant, also the fallback of [`MetricType::of_native`].
    fn default() -> (r: Self)
        ensures
            r == MetricType::Absolute,
    {
        MetricType::Absolute
    }
}

} // verus!
