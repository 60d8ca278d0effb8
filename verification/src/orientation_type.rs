//! The orientation an image should be presented in.

use vstd::prelude::*;

verus! {

/// The orientation an image should be presented in.
///
/// The native library numbers these options consecutively from zero, in the
/// order declared here, so the declaration order is part of the contract.
#[derive(Clone, Copy, Debug, PartialEq, Eq, Structural)]
pub enum OrientationType {
    Undefined,
    TopLeft,
    TopRight,
    BottomRight,
    BottomLeft,
    LeftTop,
    RightTop,
    RightBottom,
    LeftBottom,
}

impl OrientationType {
    /// The native tag a variant maps to.
    pub open spec fn as_native(self) -> u32 {
        match self {
            OrientationType::Undefined => 0,
            OrientationType::TopLeft => 1,
            OrientationType::TopRight => 2,
            OrientationType::BottomRight => 3,
            OrientationType::BottomLeft => 4,
            OrientationType::LeftTop => 5,
            OrientationType::RightTop => 6,
            OrientationType::RightBottom => 7,
            OrientationType::LeftBottom => 8,
        }
    }

    /// The greatest native tag with a defined meaning for this option.
    pub open spec fn max_native() -> u32 {
        8
    }

    /// The variant a native tag maps back to.  A newer native library may
    /// define tags beyond the declared ones, so a tag above the greatest
    /// declared one falls back to `OrientationType::Undefined`.
    pub open spec fn of_native(v: u32) -> OrientationType {
        if v == 0 {
            OrientationType::Undefined
        } else if v == 1 {
            OrientationType::TopLeft
        } else if v == 2 {
            OrientationType::TopRight
        } else if v == 3 {
            OrientationType::BottomRight
        } else if v == 4 {
            OrientationType::BottomLeft
        } else if v == 5 {
            OrientationType::LeftTop
        } else if v == 6 {
            OrientationType::RightTop
        } else if v == 7 {
            OrientationType::RightBottom
        } else if v == 8 {
            OrientationType::LeftBottom
        } else {
            OrientationType::Undefined
        }
    }

    /// Safe-to-native conversion: total and infallible.
    pub fn to_native(self) -> (r: u32)
        ensures
            r == self.as_native(),
    {
        match self {
            OrientationType::Undefined => 0,
            OrientationType::TopLeft => 1,
            OrientationType::TopRight => 2,
            OrientationType::BottomRight => 3,
            OrientationType::BottomLeft => 4,
            OrientationType::LeftTop => 5,
            OrientationType::RightTop => 6,
            OrientationType::RightBottom => 7,
            OrientationType::LeftBottom => 8,
        }
    }

    /// Native-to-safe conversion: total, with the fallback described at
    /// [`OrientationType::of_native`] for unrecognized tags.
    pub fn from_native(v: u32) -> (r: OrientationType)
        ensures
            r == OrientationType::of_native(v),
    {
        if v == 0 {
            OrientationType::Undefined
        } else if v == 1 {
            OrientationType::TopLeft
        } else if v == 2 {
            OrientationType::TopRight
        } else if v == 3 {
            OrientationType::BottomRight
        } else if v == 4 {
            OrientationType::BottomLeft
        } else if v == 5 {
            OrientationType::LeftTop
        } else if v == 6 {
            OrientationType::RightTop
        } else if v == 7 {
            OrientationType::RightBottom
        } else if v == 8 {
            OrientationType::LeftBottom
        } else {
            OrientationType::Undefined
        }
    }

    /// Law: mapping a variant to its native tag and back returns the variant.
    pub proof fn lemma_native_roundtrip(self)
        ensures
            OrientationType::of_native(self.as_native()) == self,
    {
    }

    /// Law: every tag above the greatest defined one, not just the next,
    /// falls back to the default variant rather than failing.
    pub proof fn lemma_unknown_tag_default(v: u32)
        requires
            v > OrientationType::max_native(),
        ensures
            OrientationType::of_native(v) == OrientationType::Undefined,
    {
    }
}

impl Default for OrientationType {
    /// The documented default variant, also the fallback of [`OrientationType::of_native`].
    fn default() -> (r: Self)
        ensures
            r == OrientationType::Undefined,
    {
        OrientationType::Undefined
    }
}

} // verus!
