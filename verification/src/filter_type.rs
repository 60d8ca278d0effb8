//! The resampling filter used when an image is resized.

use vstd::prelude::*;

verus! {

/// The resampling filter used when an image is resized.
///
/// The native library numbers these options consecutively from zero, in the
/// order declared here, so the declaration order is part of the contract.
#[derive(Clone, Copy, Debug, PartialEq, Eq, Structural)]
pub enum FilterType {
    Undefined,
    Point,
    Box,
    Triangle,
    Hermite,
    Hann,
    Hamming,
    Blackman,
    Gaussian,
    Quadratic,
    Cubic,
    Catrom,
    Mitchell,
    Jinc,
    Sinc,
    SincFast,
    Kaiser,
    Welch,
    Parzen,
    Bohman,
    Bartlett,
    Lagrange,
    Lanczos,
    LanczosSharp,
    Lanczos2,
    Lanczos2Sharp,
    Robidoux,
    RobidouxSharp,
    Cosine,
    Spline,
    LanczosRadius,
    CubicSpline,
    Sentinel,
}

impl FilterType {
    /// The native tag a variant maps to.
    pub open spec fn as_native(self) -> u32 {
        match self {
            FilterType::Undefined => 0,
            FilterType::Point => 1,
            FilterType::Box => 2,
            FilterType::Triangle => 3,
            FilterType::Hermite => 4,
            FilterType::Hann => 5,
            FilterType::Hamming => 6,
            FilterType::Blackman => 7,
            FilterType::Gaussian => 8,
            FilterType::Quadratic => 9,
            FilterType::Cubic => 10,
            FilterType::Catrom => 11,
            FilterType::Mitchell => 12,
            FilterType::Jinc => 13,
            FilterType::Sinc => 14,
            FilterType::SincFast => 15,
            FilterType::Kaiser => 16,
            FilterType::Welch => 17,
            FilterType::Parzen => 18,
            FilterType::Bohman => 19,
            FilterType::Bartlett => 20,
            FilterType::Lagrange => 21,
            FilterType::Lanczos => 22,
            FilterType::LanczosSharp => 23,
            FilterType::Lanczos2 => 24,
            FilterType::Lanczos2Sharp => 25,
            FilterType::Robidoux => 26,
            FilterType::RobidouxSharp => 27,
            FilterType::Cosine => 28,
            FilterType::Spline => 29,
            FilterType::LanczosRadius => 30,
            FilterType::CubicSpline => 31,
            FilterType::Sentinel => 32,
        }
    }

    /// The greatest native tag with a defined meaning for this option.
    pub open spec fn max_native() -> u32 {
        32
    }

    /// The variant a native tag maps back to.  A newer native library may
    /// define tags beyond the declared ones, so a tag above the greatest
    /// declared one falls back to `FilterType::Undefined`.
    pub open spec fn of_native(v: u32) -> FilterType {
        if v == 0 {
            FilterType::Undefined
        } else if v == 1 {
            FilterType::Point
        } else if v == 2 {
            FilterType::Box
        } else if v == 3 {
            FilterType::Triangle
        } else if v == 4 {
            FilterType::Hermite
        } else if v == 5 {
            FilterType::Hann
        } else if v == 6 {
            FilterType::Hamming
        } else if v == 7 {
            FilterType::Blackman
        } else if v == 8 {
            FilterType::Gaussian
        } else if v == 9 {
            FilterType::Quadratic
        } else if v == 10 {
            FilterType::Cubic
        } else if v == 11 {
            FilterType::Catrom
        } else if v == 12 {
            FilterType::Mitchell
        } else if v == 13 {
            FilterType::Jinc
        } else if v == 14 {
            FilterType::Sinc
        } else if v == 15 {
            FilterType::SincFast
        } else if v == 16 {
            FilterType::Kaiser
        } else if v == 17 {
            FilterType::Welch
        } else if v == 18 {
            FilterType::Parzen
        } else if v == 19 {
            FilterType::Bohman
        } else if v == 20 {
            FilterType::Bartlett
        } else if v == 21 {
            FilterType::Lagrange
        } else if v == 22 {
            FilterType::Lanczos
        } else if v == 23 {
            FilterType::LanczosSharp
        } else if v == 24 {
            FilterType::Lanczos2
        } else if v == 25 {
            FilterType::Lanczos2Sharp
        } else if v == 26 {
            FilterType::Robidoux
        } else if v == 27 {
            FilterType::RobidouxSharp
        } else if v == 28 {
            FilterType::Cosine
        } else if v == 29 {
            FilterType::Spline
        } else if v == 30 {
            FilterType::LanczosRadius
        } else if v == 31 {
            FilterType::CubicSpline
        } else if v == 32 {
            FilterType::Sentinel
        } else {
            FilterType::Undefined
        }
    }

    /// Safe-to-native conversion: total and infallible.
    pub fn to_native(self) -> (r: u32)
        ensures
            r == self.as_native(),
    {
        match self {
            FilterType::Undefined => 0,
            FilterType::Point => 1,
            FilterType::Box => 2,
            FilterType::Triangle => 3,
            FilterType::Hermite => 4,
            FilterType::Hann => 5,
            FilterType::Hamming => 6,
            FilterType::Blackman => 7,
            FilterType::Gaussian => 8,
            FilterType::Quadratic => 9,
            FilterType::Cubic => 10,
            FilterType::Catrom => 11,
            FilterType::Mitchell => 12,
            FilterType::Jinc => 13,
            FilterType::Sinc => 14,
            FilterType::SincFast => 15,
            FilterType::Kaiser => 16,
            FilterType::Welch => 17,
            FilterType::Parzen => 18,
            FilterType::Bohman => 19,
            FilterType::Bartlett => 20,
            FilterType::Lagrange => 21,
            FilterType::Lanczos => 22,
            FilterType::LanczosSharp => 23,
            FilterType::Lanczos2 => 24,
            FilterType::Lanczos2Sharp => 25,
            FilterType::Robidoux => 26,
            FilterType::RobidouxSharp => 27,
            FilterType::Cosine => 28,
            FilterType::Spline => 29,
            FilterType::LanczosRadius => 30,
            FilterType::CubicSpline => 31,
            FilterType::Sentinel => 32,
        }
    }

    /// Native-to-safe conversion: total, with the fallback described at
    /// [`FilterType::of_native`] for unrecognized tags.
    pub fn from_native(v: u32) -> (r: FilterType)
        ensures
            r == FilterType::of_native(v),
    {
        if v == 0 {
            FilterType::Undefined
        } else if v == 1 {
            FilterType::Point
        } else if v == 2 {
            FilterType::Box
        } else if v == 3 {
            FilterType::Triangle
        } else if v == 4 {
            FilterType::Hermite
        } else if v == 5 {
            FilterType::Hann
        } else if v == 6 {
            FilterType::Hamming
        } else if v == 7 {
            FilterType::Blackman
        } else if v == 8 {
            FilterType::Gaussian
        } else if v == 9 {
            FilterType::Quadratic
        } else if v == 10 {
            FilterType::Cubic
        } else if v == 11 {
            FilterType::Catrom
        } else if v == 12 {
            FilterType::Mitchell
        } else if v == 13 {
            FilterType::Jinc
        } else if v == 14 {
            FilterType::Sinc
        } else if v == 15 {
            FilterType::SincFast
        } else if v == 16 {
            FilterType::Kaiser
        } else if v == 17 {
            FilterType::Welch
        } else if v == 18 {
            FilterType::Parzen
        } else if v == 19 {
            FilterType::Bohman
        } else if v == 20 {
            FilterType::Bartlett
        } else if v == 21 {
            FilterType::Lagrange
        } else if v == 22 {
            FilterType::Lanczos
        } else if v == 23 {
            FilterType::LanczosSharp
        } else if v == 24 {
            FilterType::Lanczos2
        } else if v == 25 {
            FilterType::Lanczos2Sharp
        } else if v == 26 {
            FilterType::Robidoux
        } else if v == 27 {
            FilterType::RobidouxSharp
        } else if v == 28 {
            FilterType::Cosine
        } else if v == 29 {
            FilterType::Spline
        } else if v == 30 {
            FilterType::LanczosRadius
        } else if v == 31 {
            FilterType::CubicSpline
        } else if v == 32 {
            FilterType::Sentinel
        } else {
            FilterType::Undefined
        }
    }

    /// Law: mapping a variant to its native tag and back returns the variant.
    pub proof fn lemma_native_roundtrip(self)
        ensures
            FilterType::of_native(self.as_native()) == self,
    {
    }

    /// Law: every tag above the greatest defined one, not just the next,
    /// falls back to the default variant rather than failing.
    pub proof fn lemma_unknown_tag_default(v: u32)
        requires
            v > FilterType::max_native(),
        ensures
            FilterType::of_native(v) == FilterType::Undefined,
    {
    }
}

} // verus!
