//! The interpolation used when sampling between pixels.

use vstd::prelude::*;

verus! {

/// The interpolation used when sampling between pixels.
///
/// The native library numbers these options consecutively from zero, in the
/// order declared here, so the declaration order is part of the contract.
#[derive(Clone, Copy, Debug, PartialEq, Eq, Structural)]
pub enum PixelInterpolateMethod {
    Undefined,
    Average,
    Average9,
    Average16,
    Background,
    Bilinear,
    Blend,
    Catrom,
    Integer,
    Mesh,
    Nearest,
    Spline,
}

impl PixelInterpolateMethod {
    /// The native tag a variant maps to.
    pub open spec fn as_native(self) -> u32 {
        match self {
            PixelInterpolateMethod::Undefined => 0,
            PixelInterpolateMethod::Average => 1,
            PixelInterpolateMethod::Average9 => 2,
            PixelInterpolateMethod::Average16 => 3,
            PixelInterpolateMethod::Background => 4,
            PixelInterpolateMethod::Bilinear => 5,
            PixelInterpolateMethod::Blend => 6,
            PixelInterpolateMethod::Catrom => 7,
            PixelInterpolateMethod::Integer => 8,
            PixelInterpolateMethod::Mesh => 9,
            PixelInterpolateMethod::Nearest => 10,
            PixelInterpolateMethod::Spline => 11,
        }
    }

    /// The greatest native tag with a defined meaning for this option.
    pub open spec fn max_native() -> u32 {
        11
    }

    /// The variant a native tag maps back to.  A newer native library may
    /// define tags beyond the declared ones, so a tag above the greatest
    /// declared one falls back to `PixelInterpolateMethod::Undefined`.
    pub open spec fn of_native(v: u32) -> PixelInterpolateMethod {
        if v == 0 {
            PixelInterpolateMethod::Undefined
        } else if v == 1 {
            PixelInterpolateMethod::Average
        } else if v == 2 {
            PixelInterpolateMethod::Average9
        } else if v == 3 {
            PixelInterpolateMethod::Average16
        } else if v == 4 {
            PixelInterpolateMethod::Background
        } else if v == 5 {
            PixelInterpolateMethod::Bilinear
        } else if v == 6 {
            PixelInterpolateMethod::Blend
        } else if v == 7 {
            PixelInterpolateMethod::Catrom
        } else if v == 8 {
            PixelInterpolateMethod::Integer
        } else if v == 9 {
            PixelInterpolateMethod::Mesh
        } else if v == 10 {
            PixelInterpolateMethod::Nearest
        } else if v == 11 {
            PixelInterpolateMethod::Spline
        } else {
            PixelInterpolateMethod::Undefined
        }
    }

    /// Safe-to-native conversion: total and infallible.
    pub fn to_native(self) -> (r: u32)
        ensures
            r == self.as_native(),
    {
        match self {
            PixelInterpolateMethod::Undefined => 0,
            PixelInterpolateMethod::Average => 1,
            PixelInterpolateMethod::Average9 => 2,
            PixelInterpolateMethod::Average16 => 3,
            PixelInterpolateMethod::Background => 4,
            PixelInterpolateMethod::Bilinear => 5,
            PixelInterpolateMethod::Blend => 6,
            PixelInterpolateMethod::Catrom => 7,
            PixelInterpolateMethod::Integer => 8,
            PixelInterpolateMethod::Mesh => 9,
            PixelInterpolateMethod::Nearest => 10,
            PixelInterpolateMethod::Spline => 11,
        }
    }

    /// Native-to-safe conversion: total, with the fallback described at
    /// [`PixelInterpolateMethod::of_native`] for unrecognized tags.
    pub fn from_native(v: u32) -> (r: PixelInterpolateMethod)
        ensures
            r == PixelInterpolateMethod::of_native(v),
    {
        if v == 0 {
            PixelInterpolateMethod::Undefined
        } else if v == 1 {
            PixelInterpolateMethod::Average
        } else if v == 2 {
            PixelInterpolateMethod::Average9
        } else if v == 3 {
            PixelInterpolateMethod::Average16
        } else if v == 4 {
            PixelInterpolateMethod::Background
        } else if v == 5 {
            PixelInterpolateMethod::Bilinear
        } else if v == 6 {
            PixelInterpolateMethod::Blend
        } else if v == 7 {
            PixelInterpolateMethod::Catrom
        } else if v == 8 {
            PixelInterpolateMethod::Integer
        } else if v == 9 {
            PixelInterpolateMethod::Mesh
        } else if v == 10 {
            PixelInterpolateMethod::Nearest
        } else if v == 11 {
            PixelInterpolateMethod::Spline
        } else {
            PixelInterpolateMethod::Undefined
        }
    }

    /// Law: mapping a variant to its native tag and back returns the variant.
    pub proof fn lemma_native_roundtrip(self)
        ensures
            PixelInterpolateMethod::of_native(self.as_native()) == self,
    {
    }

    /// Law: every tag above the greatest defined one, not just the next,
    /// falls back to the default variant rather than failing.
    pub proof fn lemma_unknown_tag_default(v: u32)
        requires
            v > PixelInterpolateMethod::max_native(),
        ensures
            PixelInterpolateMethod::of_native(v) == PixelInterpolateMethod::Undefined,
    {
    }
}

impl Default for PixelInterpolateMethod {
    /// The documented default variant, also the fallback of [`PixelInterpolateMethod::of_native`].
    fn default() -> (r: Self)
        ensures
            r == PixelInterpolateMethod::Undefined,
    {
        PixelInterpolateMethod::Undefined
    }
}

} // verus!
