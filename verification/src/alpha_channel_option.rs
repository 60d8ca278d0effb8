//! The how the alpha channel of an image is activated or transformed.

use vstd::prelude::*;

verus! {

/// The how the alpha channel of an image is activated or transformed.
///
/// The native library numbers these options consecutively from zero, in the
/// order declared here, so the declaration order is part of the contract.
#[derive(Clone, Copy, Debug, PartialEq, Eq, Structural)]
pub enum AlphaChannelOption {
    Undefined,
    Activate,
    Associate,
    Background,
    Copy,
    Deactivate,
    Discrete,
    Disassociate,
    Extract,
    Off,
    On,
    Opaque,
    Remove,
    SetAlpha,
    Shape,
    Transparent,
    OffIfOpaque,
}

impl AlphaChannelOption {
    /// The native tag a variant maps to.
    pub open spec fn as_native(self) -> u32 {
        match self {
            AlphaChannelOption::Undefined => 0,
            AlphaChannelOption::Activate => 1,
            AlphaChannelOption::Associate => 2,
            AlphaChannelOption::Background => 3,
            AlphaChannelOption::Copy => 4,
            AlphaChannelOption::Deactivate => 5,
            AlphaChannelOption::Discrete => 6,
            AlphaChannelOption::Disassociate => 7,
            AlphaChannelOption::Extract => 8,
            AlphaChannelOption::Off => 9,
            AlphaChannelOption::On => 10,
            AlphaChannelOption::Opaque => 11,
            AlphaChannelOption::Remove => 12,
            AlphaChannelOption::SetAlpha => 13,
            AlphaChannelOption::Shape => 14,
            AlphaChannelOption::Transparent => 15,
            AlphaChannelOption::OffIfOpaque => 16,
        }
    }

    /// The greatest native tag with a defined meaning for this option.
    pub open spec fn max_native() -> u32 {
        16
    }

    /// The variant a native tag maps back to.  A newer native library may
    /// define tags beyond the declared ones, so a tag above the greatest
    /// declared one falls back to `AlphaChannelOption::Undefined`.
    pub open spec fn of_native(v: u32) -> AlphaChannelOption {
        if v == 0 {
            AlphaChannelOption::Undefined
        } else if v == 1 {
            AlphaChannelOption::Activate
        } else if v == 2 {
            AlphaChannelOption::Associate
        } else if v == 3 {
            AlphaChannelOption::Background
        } else if v == 4 {
            AlphaChannelOption::Copy
        } else if v == 5 {
            AlphaChannelOption::Deactivate
        } else if v == 6 {
            AlphaChannelOption::Discrete
        } else if v == 7 {
            AlphaChannelOption::Disassociate
        } else if v == 8 {
            AlphaChannelOption::Extract
        } else if v == 9 {
            AlphaChannelOption::Off
        } else if v == 10 {
            AlphaChannelOption::On
        } else if v == 11 {
            AlphaChannelOption::Opaque
        } else if v == 12 {
            AlphaChannelOption::Remove
        } else if v == 13 {
            AlphaChannelOption::SetAlpha
        } else if v == 14 {
            AlphaChannelOption::Shape
        } else if v == 15 {
            AlphaChannelOption::Transparent
        } else if v == 16 {
            AlphaChannelOption::OffIfOpaque
        } else {
            AlphaChannelOption::Undefined
        }
    }

    /// Safe-to-native conversion: total and infallible.
    pub fn to_native(self) -> (r: u32)
        ensures
            r == self.as_native(),
    {
        match self {
            AlphaChannelOption::Undefined => 0,
            AlphaChannelOption::Activate => 1,
            AlphaChannelOption::Associate => 2,
            AlphaChannelOption::Background => 3,
            AlphaChannelOption::Copy => 4,
            AlphaChannelOption::Deactivate => 5,
            AlphaChannelOption::Discrete => 6,
            AlphaChannelOption::Disassociate => 7,
            AlphaChannelOption::Extract => 8,
            AlphaChannelOption::Off => 9,
            AlphaChannelOption::On => 10,
            AlphaChannelOption::Opaque => 11,
            AlphaChannelOption::Remove => 12,
            AlphaChannelOption::SetAlpha => 13,
            AlphaChannelOption::Shape => 14,
            AlphaChannelOption::Transparent => 15,
            AlphaChannelOption::OffIfOpaque => 16,
        }
    }

    /// Native-to-safe conversion: total, with the fallback described at
    /// [`AlphaChannelOption::of_native`] for unrecognized tags.
    pub fn from_native(v: u32) -> (r: AlphaChannelOption)
        ensures
            r == AlphaChannelOption::of_native(v),
    {
        if v == 0 {
            AlphaChannelOption::Undefined
        } else if v == 1 {
            AlphaChannelOption::Activate
        } else if v == 2 {
            AlphaChannelOption::Associate
        } else if v == 3 {
            AlphaChannelOption::Background
        } else if v == 4 {
            AlphaChannelOption::Copy
        } else if v == 5 {
            AlphaChannelOption::Deactivate
        } else if v == 6 {
            AlphaChannelOption::Discrete
        } else if v == 7 {
            AlphaChannelOption::Disassociate
        } else if v == 8 {
            AlphaChannelOption::Extract
        } else if v == 9 {
            AlphaChannelOption::Off
        } else if v == 10 {
            AlphaChannelOption::On
        } else if v == 11 {
            AlphaChannelOption::Opaque
        } else if v == 12 {
            AlphaChannelOption::Remove
        } else if v == 13 {
            AlphaChannelOption::SetAlpha
        } else if v == 14 {
            AlphaChannelOption::Shape
        } else if v == 15 {
            AlphaChannelOption::Transparent
        } else if v == 16 {
            AlphaChannelOption::OffIfOpaque
        } else {
            AlphaChannelOption::Undefined
        }
    }

    /// Law: mapping a variant to its native tag and back returns the variant.
    pub proof fn lemma_native_roundtrip(self)
        ensures
            AlphaChannelOption::of_native(self.as_native()) == self,
    {
    }

    /// Law: every tag above the greatest defined one, not just the next,
    /// falls back to the default variant rather than failing.
    pub proof fn lemma_unknown_tag_default(v: u32)
        requires
            v > AlphaChannelOption::max_native(),
        ensures
            AlphaChannelOption::of_native(v) == AlphaChannelOption::Undefined,
    {
    }
}

impl Default for AlphaChannelOption {
    /// The documented default variant, also the fallback of [`AlphaChannelOption::of_native`].
    fn default() -> (r: Self)
        ensures
            r == AlphaChannelOption::Undefined,
    {
        AlphaChannelOption::Undefined
    }
}

} // verus!
