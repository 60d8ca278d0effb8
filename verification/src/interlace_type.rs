//! The interlacing scheme used when encoding an image.

use vstd::prelude::*;

verus! {

/// The interlacing scheme used when encoding an image.
///
/// The native library numbers these options consecutively from zero, in the
/// order declared here, so the declaration order is part of the contract.
#[derive(Clone, Copy, Debug, PartialEq, Eq, Structural)]
pub enum InterlaceType {
    Undefined,
    No,
    Line,
    Plane,
    Partition,
    GIF,
    JPEG,
    PNG,
}

impl InterlaceType {
    /// The native tag a variant maps to.
    pub open spec fn as_native(self) -> u32 {
        match self {
            InterlaceType::Undefined => 0,
            InterlaceType::No => 1,
            InterlaceType::Line => 2,
            InterlaceType::Plane => 3,
            InterlaceType::Partition => 4,
            InterlaceType::GIF => 5,
            InterlaceType::JPEG => 6,
            InterlaceType::PNG => 7,
        }
    }

    /// The greatest native tag with a defined meaning for this option.
    pub open spec fn max_native() -> u32 {
        7
    }

    /// The variant a native tag maps back to.  A newer native library may
    /// define tags beyond the declared ones, so a tag above the greatest
    /// declared one falls back to `InterlaceType::Undefined`.
    pub open spec fn of_native(v: u32) -> InterlaceType {
        if v == 0 {
            InterlaceType::Undefined
        } else if v == 1 {
            InterlaceType::No
        } else if v == 2 {
            InterlaceType::Line
        } else if v == 3 {
            InterlaceType::Plane
        } else if v == 4 {
            InterlaceType::Partition
        } else if v == 5 {
            InterlaceType::GIF
        } else if v == 6 {
            InterlaceType::JPEG
        } else if v == 7 {
            InterlaceType::PNG
        } else {
            InterlaceType::Undefined
        }
    }

    /// Safe-to-native conversion: total and infallible.
    pub fn to_native(self) -> (r: u32)
        ensures
            r == self.as_native(),
    {
        match self {
            InterlaceType::Undefined => 0,
            InterlaceType::No => 1,
            InterlaceType::Line => 2,
            InterlaceType::Plane => 3,
            InterlaceType::Partition => 4,
            InterlaceType::GIF => 5,
            InterlaceType::JPEG => 6,
            InterlaceType::PNG => 7,
        }
    }

    /// Native-to-safe conversion: total, with the fallback described at
    /// [`InterlaceType::of_native`] for unrecognized tags.
    pub fn from_native(v: u32) -> (r: InterlaceType)
        ensures
            r == InterlaceType::of_native(v),
    {
        if v == 0 {
            InterlaceType::Undefined
        } else if v == 1 {
            InterlaceType::No
        } else if v == 2 {
            InterlaceType::Line
        } else if v == 3 {
            InterlaceType::Plane
        } else if v == 4 {
            InterlaceType::Partition
        } else if v == 5 {
            InterlaceType::GIF
        } else if v == 6 {
            InterlaceType::JPEG
        } else if v == 7 {
            InterlaceType::PNG
        } else {
            InterlaceType::Undefined
        }
    }

    /// Law: mapping a variant to its native tag and back returns the variant.
    pub proof fn lemma_native_roundtrip(self)
        ensures
            InterlaceType::of_native(self.as_native()) == self,
    {
    }

    /// Law: every tag above the greatest defined one, not just the next,
    /// falls back to the default variant rather than failing.
    pub proof fn lemma_unknown_tag_default(v: u32)
        requires
            v > InterlaceType::max_native(),
        ensures
            InterlaceType::of_native(v) == InterlaceType::Undefined,
    {
    }
}

impl Default for InterlaceType {
    /// The documented default variant, also the fallback of [`InterlaceType::of_native`].
    fn default() -> (r: Self)
        ensures
            r == InterlaceType::Undefined,
    {
        InterlaceType::Undefined
    }
}

} // verus!
