//! The text alignment relative to the annotation point.

use vstd::prelude::*;

verus! {

/// The text alignment relative to the annotation point.
///
/// The native library numbers these options consecutively from zero, in the
/// order declared here, so the declaration order is part of the contract.
#[derive(Clone, Copy, Debug, PartialEq, Eq, Structural)]
pub enum AlignType {
    Undefined,
    Left,
    Center,
    Right,
}

impl AlignType {
    /// The native tag a variant maps to.
    pub open spec fn as_native(self) -> u32 {
        match self {
            AlignType::Undefined => 0,
            AlignType::Left => 1,
            AlignType::Center => 2,
            AlignType::Right => 3,
        }
    }

    /// The greatest native tag with a defined meaning for this option.
    pub open spec fn max_native() -> u32 {
        3
    }

    /// The variant a native tag maps back to.  A newer native library may
    /// define tags beyond the declared ones, so a tag above the greatest
    /// declared one falls back to `AlignType::Undefined`.
    pub open spec fn of_native(v: u32) -> AlignType {
        if v == 0 {
            AlignType::Undefined
        } else if v == 1 {
            AlignType::Left
        } else if v == 2 {
            AlignType::Center
        } else if v == 3 {
            AlignType::Right
        } else {
            AlignType::Undefined
        }
    }

    /// Safe-to-native conversion: total and infallible.
    pub fn to_native(self) -> (r: u32)
        ensures
            r == self.as_native(),
    {
        match self {
            AlignType::Undefined => 0,
            AlignType::Left => 1,
            AlignType::Center => 2,
            AlignType::Right => 3,
        }
    }

    /// Native-to-safe conversion: total, with the fallback described at
    /// [`AlignType::of_native`] for unrecognized tags.
    pub fn from_native(v: u32) -> (r: AlignType)
        ensures
            r == AlignType::of_native(v),
    {
        if v == 0 {
            AlignType::Undefined
        } else if v == 1 {
            AlignType::Left
        } else if v == 2 {
            AlignType::Center
        } else if v == 3 {
            AlignType::Right
        } else {
            AlignType::Undefined
        }
    }

    /// Law: mapping a variant to its native tag and back returns the variant.
    pub proof fn lemma_native_roundtrip(self)
        ensures
            AlignType::of_native(self.as_native()) == self,
    {
    }

    /// Law: every tag above the greatest defined one, not just the next,
    /// falls back to the default variant rather than failing.
    pub proof fn lemma_unknown_tag_default(v: u32)
        requires
            v > AlignType::max_native(),
        ensures
            AlignType::of_native(v) == AlignType::Undefined,
    {
    }
}

impl Default for AlignType {
    /// The documented default variant, also the fallback of [`AlignType::of_native`].
    fn default() -> (r: Self)
        ensures
            r == AlignType::Undefined,
    {
        AlignType::Undefined
    }
}

} // verus!
