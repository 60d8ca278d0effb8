//! The style of a font face.

use vstd::prelude::*;

verus! {

/// The style of a font face.
///
/// The native library numbers these options consecutively from zero, in the
/// order declared here, so the declaration order is part of the contract.
#[derive(Clone, Copy, Debug, PartialEq, Eq, Structural)]
pub enum StyleType {
    Undefined,
    Normal,
    Italic,
    Oblique,
    Any,
    Bold,
}

impl StyleType {
    /// The native tag a variant maps to.
    pub open spec fn as_native(self) -> u32 {
        match self {
            StyleType::Undefined => 0,
            StyleType::Normal => 1,
            StyleType::Italic => 2,
            StyleType::Oblique => 3,
            StyleType::Any => 4,
            StyleType::Bold => 5,
        }
    }

    /// The greatest native tag with a defined meaning for this option.
    pub open spec fn max_native() -> u32 {
        5
    }

    /// The variant a native tag maps back to.  A newer native library may
    /// define tags beyond the declared ones, so a tag above the greatest
    /// declared one falls back to `StyleType::Undefined`.
    pub open spec fn of_native(v: u32) -> StyleType {
        if v == 0 {
            StyleType::Undefined
        } else if v == 1 {
            StyleType::Normal
        } else if v == 2 {
            StyleType::Italic
        } else if v == 3 {
            StyleType::Oblique
        } else if v == 4 {
            StyleType::Any
        } else if v == 5 {
            StyleType::Bold
        } else {
            StyleType::Undefined
        }
    }

    /// Safe-to-native conversion: total and infallible.
    pub fn to_native(self) -> (r: u32)
        ensures
            r == self.as_native(),
    {
        match self {
            StyleType::Undefined => 0,
            StyleType::Normal => 1,
            StyleType::Italic => 2,
            StyleType::Oblique => 3,
            StyleType::Any => 4,
            StyleType::Bold => 5,
        }
    }

    /// Native-to-safe conversion: total, with the fallback described at
    /// [`StyleType::of_native`] for unrecognized tags.
    pub fn from_native(v: u32) -> (r: StyleType)
        ensures
            r == StyleType::of_native(v),
    {
        if v == 0 {
            StyleType::Undefined
        } else if v == 1 {
            StyleType::Normal
        } else if v == 2 {
            StyleType::Italic
        } else if v == 3 {
            StyleType::Oblique
        } else if v == 4 {
            StyleType::Any
        } else if v == 5 {
            StyleType::Bold
        } else {
            StyleType::Undefined
        }
    }

    /// Law: mapping a variant to its native tag and back returns the variant.
    pub proof fn lemma_native_roundtrip(self)
        ensures
            StyleType::of_native(self.as_native()) == self,
    {
    }

    /// Law: every tag above the greatest defined one, not just the next,
    /// falls back to the default variant rather than failing.
    pub proof fn lemma_unknown_tag_default(v: u32)
        requires
            v > StyleType::max_native(),
        ensures
            StyleType::of_native(v) == StyleType::Undefined,
    {
    }
}

impl Default for StyleType {
    /// The documented default variant, also the fallback of [`StyleType::of_native`].
    fn default() -> (r: Self)
        ensures
            r == StyleType::Undefined,
    {
        StyleType::Undefined
    }
}

} // verus!
