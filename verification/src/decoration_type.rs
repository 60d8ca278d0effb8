//! The text decoration drawn with rendered text.

use vstd::prelude::*;

verus! {

/// The text decoration drawn with rendered text.
///
/// The native library numbers these options consecutively from zero, in the
/// order declared here, so the declaration order is part of the contract.
#[derive(Clone, Copy, Debug, PartialEq, Eq, Structural)]
pub enum DecorationType {
    Undefined,
    No,
    Underline,
    Overline,
    LineThrough,
}

impl DecorationType {
    /// The native tag a variant maps to.
    pub open spec fn as_native(self) -> u32 {
        match self {
            DecorationType::Undefined => 0,
            DecorationType::No => 1,
            DecorationType::Underline => 2,
            DecorationType::Overline => 3,
            DecorationType::LineThrough => 4,
        }
    }

    /// The greatest native tag with a defined meaning for this option.
    pub open spec fn max_native() -> u32 {
        4
    }

    /// The variant a native tag maps back to.  A newer native library may
    /// define tags beyond the declared ones, so a tag above the greatest
    /// declared one falls back to `DecorationType::Undefined`.
    pub open spec fn of_native(v: u32) -> DecorationType {
        if v == 0 {
            DecorationType::Undefined
        } else if v == 1 {
            DecorationType::No
        } else if v == 2 {
            DecorationType::Underline
        } else if v == 3 {
            DecorationType::Overline
        } else if v == 4 {
            DecorationType::LineThrough
        } else {
            DecorationType::Undefined
        }
    }

    /// Safe-to-native conversion: total and infallible.
    pub fn to_native(self) -> (r: u32)
        ensures
            r == self.as_native(),
    {
        match self {
            DecorationType::Undefined => 0,
            DecorationType::No => 1,
            DecorationType::Underline => 2,
            DecorationType::Overline => 3,
            DecorationType::LineThrough => 4,
        }
    }

    /// Native-to-safe conversion: total, with the fallback described at
    /// [`DecorationType::of_native`] for unrecognized tags.
    pub fn from_native(v: u32) -> (r: DecorationType)
        ensures
            r == DecorationType::of_native(v),
    {
        if v == 0 {
            DecorationType::Undefined
        } else if v == 1 {
            DecorationType::No
        } else if v == 2 {
            DecorationType::Underline
        } else if v == 3 {
            DecorationType::Overline
        } else if v == 4 {
            DecorationType::LineThrough
        } else {
            DecorationType::Undefined
        }
    }

    /// Law: mapping a variant to its native tag and back returns the variant.
    pub proof fn lemma_native_roundtrip(self)
        ensures
            DecorationType::of_native(self.as_native()) == self,
    {
    }

    /// Law: every tag above the greatest defined one, not just the next,
    /// falls back to the default variant rather than failing.
    pub proof fn lemma_unknown_tag_default(v: u32)
        requires
            v > DecorationType::max_native(),
        ensures
            DecorationType::of_native(v) == DecorationType::Undefined,
    {
    }
}

impl Default for DecorationType {
    /// The documented default variant, also the fallback of [`DecorationType::of_native`].
    fn default() -> (r: Self)
        ensures
            r == DecorationType::Undefined,
    {
        DecorationType::Undefined
    }
}

} // verus!
