//! The direction rendered text flows in.

use vstd::prelude::*;

verus! {

/// The direction rendered text flows in.
///
/// The native library numbers these options consecutively from zero, in the
/// order declared here, so the declaration order is part of the contract.
#[derive(Clone, Copy, Debug, PartialEq, Eq, Structural)]
pub enum DirectionType {
    Undefined,
    RightToLeft,
    LeftToRight,
    TopToBottom,
}

impl DirectionType {
    /// The native tag a variant maps to.
    pub open spec fn as_native(self) -> u32 {
        match self {
            DirectionType::Undefined => 0,
            DirectionType::RightToLeft => 1,
            DirectionType::LeftToRight => 2,
            DirectionType::TopToBottom => 3,
        }
    }

    /// The greatest native tag with a defined meaning for this option.
    pub open spec fn max_native() -> u32 {
        3
    }

    /// The variant a native tag maps back to.  A newer native library may
    /// define tags beyond the declared ones, so a tag above the greatest
    /// declared one falls back to `DirectionType::Undefined`.
    pub open spec fn of_native(v: u32) -> DirectionType {
        if v == 0 {
            DirectionType::Undefined
        } else if v == 1 {
            DirectionType::RightToLeft
        } else if v == 2 {
            DirectionType::LeftToRight
        } else if v == 3 {
            DirectionType::TopToBottom
        } else {
            DirectionType::Undefined
        }
    }

    /// Safe-to-native conversion: total and infallible.
    pub fn to_native(self) -> (r: u32)
        ensures
            r == self.as_native(),
    {
        match self {
            DirectionType::Undefined => 0,
            DirectionType::RightToLeft => 1,
            DirectionType::LeftToRight => 2,
            DirectionType::TopToBottom => 3,
        }
    }

    /// Native-to-safe conversion: total, with the fallback described at
    /// [`DirectionType::of_native`] for unrecognized tags.
    pub fn from_native(v: u32) -> (r: DirectionType)
        ensures
            r == DirectionType::of_native(v),
    {
        if v == 0 {
            DirectionType::Undefined
        } else if v == 1 {
            DirectionType::RightToLeft
        } else if v == 2 {
            DirectionType::LeftToRight
        } else if v == 3 {
            DirectionType::TopToBottom
        } else {
            DirectionType::Undefined
        }
    }

    /// Law: mapping a variant to its native tag and back returns the variant.
    pub proof fn lemma_native_roundtrip(self)
        ensures
            DirectionType::of_native(self.as_native()) == self,
    {
    }

    /// Law: every tag above the greatest defined one, not just the next,
    /// falls back to the default variant rather than failing.
    pub proof fn lemma_unknown_tag_default(v: u32)
        requires
            v > DirectionType::max_native(),
        ensures
            DirectionType::of_native(v) == DirectionType::Undefined,
    {
    }
}

impl Default for DirectionType {
    /// The documented default variant, also the fallback of [`DirectionType::of_native`].
    fn default() -> (r: Self)
        ensures
            r == DirectionType::Undefined,
    {
        DirectionType::Undefined
    }
}

} // verus!
