//! The how a sequence of image layers is compared or merged.

use vstd::prelude::*;

verus! {

/// The how a sequence of image layers is compared or merged.
///
/// The native library numbers these options consecutively from zero, in the
/// order declared here, so the declaration order is part of the contract.
#[derive(Clone, Copy, Debug, PartialEq, Eq, Structural)]
pub enum LayerMethod {
    Undefined,
    Coalesce,
    CompareAny,
    CompareClear,
    CompareOverlay,
    Dispose,
    Optimize,
    OptimizeImage,
    OptimizePlus,
    OptimizeTrans,
    RemoveDups,
    RemoveZero,
    Composite,
    Merge,
    Flatten,
    Mosaic,
    TrimBounds,
}

impl LayerMethod {
    /// The native tag a variant maps to.
    pub open spec fn as_native(self) -> u32 {
        match self {
            LayerMethod::Undefined => 0,
            LayerMethod::Coalesce => 1,
            LayerMethod::CompareAny => 2,
            LayerMethod::CompareClear => 3,
            LayerMethod::CompareOverlay => 4,
            LayerMethod::Dispose => 5,
            LayerMethod::Optimize => 6,
            LayerMethod::OptimizeImage => 7,
            LayerMethod::OptimizePlus => 8,
            LayerMethod::OptimizeTrans => 9,
            LayerMethod::RemoveDups => 10,
            LayerMethod::RemoveZero => 11,
            LayerMethod::Composite => 12,
            LayerMethod::Merge => 13,
            LayerMethod::Flatten => 14,
            LayerMethod::Mosaic => 15,
            LayerMethod::TrimBounds => 16,
        }
    }

    /// The greatest native tag with a defined meaning for this option.
    pub open spec fn max_native() -> u32 {
        16
    }

    /// The variant a native tag maps back to.  A newer native library may
    /// define tags beyond the declared ones, so a tag above the greatest
    /// declared one falls back to `LayerMethod::Undefined`.
    pub open spec fn of_native(v: u32) -> LayerMethod {
        if v == 0 {
            LayerMethod::Undefined
        } else if v == 1 {
            LayerMethod::Coalesce
        } else if v == 2 {
            LayerMethod::CompareAny
        } else if v == 3 {
            LayerMethod::CompareClear
        } else if v == 4 {
            LayerMethod::CompareOverlay
        } else if v == 5 {
            LayerMethod::Dispose
        } else if v == 6 {
            LayerMethod::Optimize
        } else if v == 7 {
            LayerMethod::OptimizeImage
        } else if v == 8 {
            LayerMethod::OptimizePlus
        } else if v == 9 {
            LayerMethod::OptimizeTrans
        } else if v == 10 {
            LayerMethod::RemoveDups
        } else if v == 11 {
            LayerMethod::RemoveZero
        } else if v == 12 {
            LayerMethod::Composite
        } else if v == 13 {
            LayerMethod::Merge
        } else if v == 14 {
            LayerMethod::Flatten
        } else if v == 15 {
            LayerMethod::Mosaic
        } else if v == 16 {
            LayerMethod::TrimBounds
        } else {
            LayerMethod::Undefined
        }
    }

    /// Safe-to-native conversion: total and infallible.
    pub fn to_native(self) -> (r: u32)
        ensures
            r == self.as_native(),
    {
        match self {
            LayerMethod::Undefined => 0,
            LayerMethod::Coalesce => 1,
            LayerMethod::CompareAny => 2,
            LayerMethod::CompareClear => 3,
            LayerMethod::CompareOverlay => 4,
            LayerMethod::Dispose => 5,
            LayerMethod::Optimize => 6,
            LayerMethod::OptimizeImage => 7,
            LayerMethod::OptimizePlus => 8,
            LayerMethod::OptimizeTrans => 9,
            LayerMethod::RemoveDups => 10,
            LayerMethod::RemoveZero => 11,
            LayerMethod::Composite => 12,
            LayerMethod::Merge => 13,
            LayerMethod::Flatten => 14,
            LayerMethod::Mosaic => 15,
            LayerMethod::TrimBounds => 16,
        }
    }

    /// Native-to-safe conversion: total, with the fallback described at
    /// [`LayerMethod::of_native`] for unrecognized tags.
    pub fn from_native(v: u32) -> (r: LayerMethod)
        ensures
            r == LayerMethod::of_native(v),
    {
        if v == 0 {
            LayerMethod::Undefined
        } else if v == 1 {
            LayerMethod::Coalesce
        } else if v == 2 {
            LayerMethod::CompareAny
        } else if v == 3 {
            LayerMethod::CompareClear
        } else if v == 4 {
            LayerMethod::CompareOverlay
        } else if v == 5 {
            LayerMethod::Dispose
        } else if v == 6 {
            LayerMethod::Optimize
        } else if v == 7 {
            LayerMethod::OptimizeImage
        } else if v == 8 {
            LayerMethod::OptimizePlus
        } else if v == 9 {
            LayerMethod::OptimizeTrans
        } else if v == 10 {
            LayerMethod::RemoveDups
        } else if v == 11 {
            LayerMethod::RemoveZero
        } else if v == 12 {
            LayerMethod::Composite
        } else if v == 13 {
            LayerMethod::Merge
        } else if v == 14 {
            LayerMethod::Flatten
        } else if v == 15 {
            LayerMethod::Mosaic
        } else if v == 16 {
            LayerMethod::TrimBounds
        } else {
            LayerMethod::Undefined
        }
    }

    /// Law: mapping a variant to its native tag and back returns the variant.
    pub proof fn lemma_native_roundtrip(self)
        ensures
            LayerMethod::of_native(self.as_native()) == self,
    {
    }

    /// Law: every tag above the greatest defined one, not just the next,
    /// falls back to the default variant rather than failing.
    pub proof fn lemma_unknown_tag_default(v: u32)
        requires
            v > LayerMethod::max_native(),
        ensures
            LayerMethod::of_native(v) == LayerMethod::Undefined,
    {
    }
}

impl Default for LayerMethod {
    /// The documented default variant, also the fallback of [`LayerMethod::of_native`].
    fn default() -> (r: Self)
        ensures
            r == LayerMethod::Undefined,
    {
        LayerMethod::Undefined
    }
}

} // verus!
