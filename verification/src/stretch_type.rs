//! The horizontal stretch of a font face.

use vstd::prelude::*;

verus! {

/// The horizontal stretch of a font face.
///
/// The native library numbers these options consecutively from zero, in the
/// order declared here, so the declaration order is part of the contract.
#[derive(Clone, Copy, Debug, PartialEq, Eq, Structural)]
pub enum StretchType {
    Undefined,
    Normal,
    UltraCondensed,
    ExtraCondensed,
    Condensed,
    SemiCondensed,
    SemiExpanded,
    Expanded,
    ExtraExpanded,
    UltraExpanded,
    Any,
}

impl StretchType {
    /// The native tag a variant maps to.
    pub open spec fn as_native(self) -> u32 {
        match self {
            StretchType::Undefined => 0,
            StretchType::Normal => 1,
            StretchType::UltraCondensed => 2,
            StretchType::ExtraCondensed => 3,
            StretchType::Condensed => 4,
            StretchType::SemiCondensed => 5,
            StretchType::SemiExpanded => 6,
            StretchType::Expanded => 7,
            StretchType::ExtraExpanded => 8,
            StretchType::UltraExpanded => 9,
            StretchType::Any => 10,
        }
    }

    /// The greatest native tag with a defined meaning for this option.
    pub open spec fn max_native() -> u32 {
        10
    }

    /// The variant a native tag maps back to.  A newer native library may
    /// define tags beyond the declared ones, so a tag above the greatest
    /// declared one falls back to `StretchType::Undefined`.
    pub open spec fn of_native(v: u32) -> StretchType {
        if v == 0 {
            StretchType::Undefined
        } else if v == 1 {
            StretchType::Normal
        } else if v == 2 {
            StretchType::UltraCondensed
        } else if v == 3 {
            StretchType::ExtraCondensed
        } else if v == 4 {
            StretchType::Condensed
        } else if v == 5 {
            StretchType::SemiCondensed
        } else if v == 6 {
            StretchType::SemiExpanded
        } else if v == 7 {
            StretchType::Expanded
        } else if v == 8 {
            StretchType::ExtraExpanded
        } else if v == 9 {
            StretchType::UltraExpanded
        } else if v == 10 {
            StretchType::Any
        } else {
            StretchType::Undefined
        }
    }

    /// Safe-to-native conversion: total and infallible.
    pub fn to_native(self) -> (r: u32)
        ensures
            r == self.as_native(),
    {
        match self {
            StretchType::Undefined => 0,
            StretchType::Normal => 1,
            StretchType::UltraCondensed => 2,
            StretchType::ExtraCondensed => 3,
            StretchType::Condensed => 4,
            StretchType::SemiCondensed => 5,
            StretchType::SemiExpanded => 6,
            StretchType::Expanded => 7,
            StretchType::ExtraExpanded => 8,
            StretchType::UltraExpanded => 9,
            StretchType::Any => 10,
        }
    }

    /// Native-to-safe conversion: total, with the fallback described at
    /// [`StretchType::of_native`] for unrecognized tags.
    pub fn from_native(v: u32) -> (r: StretchType)
        ensures
            r == StretchType::of_native(v),
    {
        if v == 0 {
            StretchType::Undefined
        } else if v == 1 {
            StretchType::Normal
        } else if v == 2 {
            StretchType::UltraCondensed
        } else if v == 3 {
            StretchType::ExtraCondensed
        } else if v == 4 {
            StretchType::Condensed
        } else if v == 5 {
            StretchType::SemiCondensed
        } else if v == 6 {
            StretchType::SemiExpanded
        } else if v == 7 {
            StretchType::Expanded
        } else if v == 8 {
            StretchType::ExtraExpanded
        } else if v == 9 {
            StretchType::UltraExpanded
        } else if v == 10 {
            StretchType::Any
        } else {
            StretchType::Undefined
        }
    }

    /// Law: mapping a variant to its native tag and back returns the variant.
    pub proof fn lemma_native_roundtrip(self)
        ensures
            StretchType::of_native(self.as_native()) == self,
    {
    }

    /// Law: every tag above the greatest defined one, not just the next,
    /// falls back to the default variant rather than failing.
    pub proof fn lemma_unknown_tag_default(v: u32)
        requires
            v > StretchType::max_native(),
        ensures
            StretchType::of_native(v) == StretchType::Undefined,
    {
    }
}

impl Default for StretchType {
    /// The documented default variant, also the fallback of [`StretchType::of_native`].
    fn default() -> (r: Self)
        ensures
            r == StretchType::Undefined,
    {
        StretchType::Undefined
    }
}

} // verus!
