//! The coordinate system used by a clip path.

use vstd::prelude::*;

verus! {

/// The coordinate system used by a clip path.
///
/// The native library numbers these options consecutively from zero, in the
/// order declared here, so the declaration order is part of the contract.
#[derive(Clone, Copy, Debug, PartialEq, Eq, Structural)]
pub enum ClipPathUnits {
    Undefined,
    UserSpace,
    UserSpaceOnUse,
    ObjectBoundingBox,
}

impl ClipPathUnits {
    /// The native tag a variant maps to.
    pub open spec fn as_native(self) -> u32 {
        match self {
            ClipPathUnits::Undefined => 0,
            ClipPathUnits::UserSpace => 1,
            ClipPathUnits::UserSpaceOnUse => 2,
            ClipPathUnits::ObjectBoundingBox => 3,
        }
    }

    /// The greatest native tag with a defined meaning for this option.
    pub open spec fn max_native() -> u32 {
        3
    }

    /// The variant a native tag maps back to.  A newer native library may
    /// define tags beyond the declared ones, so a tag above the greatest
    /// declared one falls back to `ClipPathUnits::Undefined`.
    pub open spec fn of_native(v: u32) -> ClipPathUnits {
        if v == 0 {
            ClipPathUnits::Undefined
        } else if v == 1 {
            ClipPathUnits::UserSpace
        } else if v == 2 {
            ClipPathUnits::UserSpaceOnUse
        } else if v == 3 {
            ClipPathUnits::ObjectBoundingBox
        } else {
            ClipPathUnits::Undefined
        }
    }

    /// Safe-to-native conversion: total and infallible.
    pub fn to_native(self) -> (r: u32)
        ensures
            r == self.as_native(),
    {
        match self {
            ClipPathUnits::Undefined => 0,
            ClipPathUnits::UserSpace => 1,
            ClipPathUnits::UserSpaceOnUse => 2,
            ClipPathUnits::ObjectBoundingBox => 3,
        }
    }

    /// Native-to-safe conversion: total, with the fallback described at
    /// [`ClipPathUnits::of_native`] for unrecognized tags.
    pub fn from_native(v: u32) -> (r: ClipPathUnits)
        ensures
            r == ClipPathUnits::of_native(v),
    {
        if v == 0 {
            ClipPathUnits::Undefined
        } else if v == 1 {
            ClipPathUnits::UserSpace
        } else if v == 2 {
            ClipPathUnits::UserSpaceOnUse
        } else if v == 3 {
            ClipPathUnits::ObjectBoundingBox
        } else {
            ClipPathUnits::Undefined
        }
    }

    /// Law: mapping a variant to its native tag and back returns the variant.
    pub proof fn lemma_native_roundtrip(self)
        ensures
            ClipPathUnits::of_native(self.as_native()) == self,
    {
    }

    /// Law: every tag above the greatest defined one, not just the next,
    /// falls back to the default variant rather than failing.
    pub proof fn lemma_unknown_tag_default(v: u32)
        requires
            v > ClipPathUnits::max_native(),
        ensures
            ClipPathUnits::of_native(v) == ClipPathUnits::Undefined,
    {
    }
}

impl Default for ClipPathUnits {
    /// The documented default variant, also the fallback of [`ClipPathUnits::of_native`].
    fn default() -> (r: Self)
        ensures
            r == ClipPathUnits::Undefined,
    {
        ClipPathUnits::Undefined
    }
}

} // verus!
