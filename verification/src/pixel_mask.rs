//! The kind of per-pixel mask attached to an image.

use vstd::prelude::*;

verus! {

/// The kind of per-pixel mask attached to an image.
///
/// The native tags are bit-mask values, written out per variant below.
#[derive(Clone, Copy, Debug, PartialEq, Eq, Structural)]
pub enum PixelMask {
    Undefined,
    Read,
    Write,
    Composite,
}

impl PixelMask {
    /// The native tag a variant maps to.
    pub open spec fn as_native(self) -> u32 {
        match self {
            PixelMask::Undefined => 0,
            PixelMask::Read => 1,
            PixelMask::Write => 2,
            PixelMask::Composite => 4,
        }
    }

    /// The greatest native tag with a defined meaning for this option.
    pub open spec fn max_native() -> u32 {
        4
    }

    /// The variant a native tag maps back to.  A tag that belongs to no
    /// variant falls back to `PixelMask::Undefined`.
    pub open spec fn of_native(v: u32) -> PixelMask {
        if v == 0 {
            PixelMask::Undefined
        } else if v == 1 {
            PixelMask::Read
        } else if v == 2 {
            PixelMask::Write
        } else if v == 4 {
            PixelMask::Composite
        } else {
            PixelMask::Undefined
        }
    }

    /// Safe-to-native conversion: total and infallible.
    pub fn to_native(self) -> (r: u32)
        ensures
            r == self.as_native(),
    {
        match self {
            PixelMask::Undefined => 0,
            PixelMask::Read => 1,
            PixelMask::Write => 2,
            PixelMask::Composite => 4,
        }
    }

    /// Native-to-safe conversion: total, with the fallback described at
    /// [`PixelMask::of_native`] for unrecognized tags.
    pub fn from_native(v: u32) -> (r: PixelMask)
        ensures
            r == PixelMask::of_native(v),
    {
        if v == 0 {
            PixelMask::Undefined
        } else if v == 1 {
            PixelMask::Read
        } else if v == 2 {
            PixelMask::Write
        } else if v == 4 {
            PixelMask::Composite
        } else {
            PixelMask::Undefined
        }
    }

    /// Law: mapping a variant to its native tag and back returns the variant.
    pub proof fn lemma_native_roundtrip(self)
        ensures
            PixelMask::of_native(self.as_native()) == self,
    {
    }

    /// Law: every tag above the greatest defined one, not just the next,
    /// falls back to the default variant rather than failing.
    pub proof fn lemma_unknown_tag_default(v: u32)
        requires
            v > PixelMask::max_native(),
        ensures
            PixelMask::of_native(v) == PixelMask::Undefined,
    {
    }
}

impl Default for PixelMask {
    /// The documented default variant, also the fallback of [`PixelMask::of_native`].
    fn default() -> (r: Self)
        ensures
            r == PixelMask::Undefined,
    {
        PixelMask::Undefined
    }
}

} // verus!
