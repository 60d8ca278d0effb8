//! The rendering intent used when colors are mapped between gamuts.

use vstd::prelude::*;

verus! {

/// The rendering intent used when colors are mapped between gamuts.
///
/// The native library numbers these options consecutively from zero, in the
/// order declared here, so the declaration order is part of the contract.
#[derive(Clone, Copy, Debug, PartialEq, Eq, Structural)]
pub enum RenderingIntent {
    Undefined,
    Saturation,
    Perceptual,
    Absolute,
    Relative,
}

impl RenderingIntent {
    /// The native tag a variant maps to.
    pub open spec fn as_native(self) -> u32 {
        match self {
            RenderingIntent::Undefined => 0,
            RenderingIntent::Saturation => 1,
            RenderingIntent::Perceptual => 2,
            RenderingIntent::Absolute => 3,
            RenderingIntent::Relative => 4,
        }
    }

    /// The greatest native tag with a defined meaning for this option.
    pub open spec fn max_native() -> u32 {
        4
    }

    /// The variant a native tag maps back to.  A newer native library may
    /// define tags beyond the declared ones, so a tag above the greatest
    /// declared one falls back to `RenderingIntent::Undefined`.
    pub open spec fn of_native(v: u32) -> RenderingIntent {
        if v == 0 {
            RenderingIntent::Undefined
        } else if v == 1 {
            RenderingIntent::Saturation
        } else if v == 2 {
            RenderingIntent::Perceptual
        } else if v == 3 {
            RenderingIntent::Absolute
        } else if v == 4 {
            RenderingIntent::Relative
        } else {
            RenderingIntent::Undefined
        }
    }

    /// Safe-to-native conversion: total and infallible.
    pub fn to_native(self) -> (r: u32)
        ensures
            r == self.as_native(),
    {
        match self {
            RenderingIntent::Undefined => 0,
            RenderingIntent::Saturation => 1,
            RenderingIntent::Perceptual => 2,
            RenderingIntent::Absolute => 3,
            RenderingIntent::Relative => 4,
        }
    }

    /// Native-to-safe conversion: total, with the fallback described at
    /// [`RenderingIntent::of_native`] for unrecognized tags.
    pub fn from_native(v: u32) -> (r: RenderingIntent)
        ensures
            r == RenderingIntent::of_native(v),
    {
        if v == 0 {
            RenderingIntent::Undefined
        } else if v == 1 {
            RenderingIntent::Saturation
        } else if v == 2 {
            RenderingIntent::Perceptual
        } else if v == 3 {
            RenderingIntent::Absolute
        } else if v == 4 {
            RenderingIntent::Relative
        } else {
            RenderingIntent::Undefined
        }
    }

    /// Law: mapping a variant to its native tag and back returns the variant.
    pub proof fn lemma_native_roundtrip(self)
        ensures
            RenderingIntent::of_native(self.as_native()) == self,
    {
    }

    /// Law: every tag above the greatest defined one, not just the next,
    /// falls back to the default variant rather than failing.
    pub proof fn lemma_unknown_tag_default(v: u32)
        requires
            v > RenderingIntent::max_native(),
        ensures
            RenderingIntent::of_native(v) == RenderingIntent::Undefined,
    {
    }
}

impl Default for RenderingIntent {
    /// The documented default variant, also the fallback of [`RenderingIntent::of_native`].
    fn default() -> (r: Self)
        ensures
            r == RenderingIntent::Undefined,
    {
        RenderingIntent::Undefined
    }
}

} // verus!
