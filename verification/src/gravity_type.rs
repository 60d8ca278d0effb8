//! The placement of an object relative to a region.

use vstd::prelude::*;

verus! {

/// The placement of an object relative to a region.
///
/// The native library numbers these options consecutively from zero, in the
/// order declared here, so the declaration order is part of the contract.
#[derive(Clone, Copy, Debug, PartialEq, Eq, Structural)]
pub enum GravityType {
    Undefined,
    NorthWest,
    North,
    NorthEast,
    West,
    Center,
    East,
    SouthWest,
    South,
    SouthEast,
}

impl GravityType {
    /// The native tag a variant maps to.
    pub open spec fn as_native(self) -> u32 {
        match self {
            GravityType::Undefined => 0,
            GravityType::NorthWest => 1,
            GravityType::North => 2,
            GravityType::NorthEast => 3,
            GravityType::West => 4,
            GravityType::Center => 5,
            GravityType::East => 6,
            GravityType::SouthWest => 7,
            GravityType::South => 8,
            GravityType::SouthEast => 9,
        }
    }

    /// The greatest native tag with a defined meaning for this option.
    pub open spec fn max_native() -> u32 {
        9
    }

    /// The variant a native tag maps back to.  A newer native library may
    /// define tags beyond the declared ones, so a tag above the greatest
    /// declared one falls back to `GravityType::Undefined`.
    pub open spec fn of_native(v: u32) -> GravityType {
        if v == 0 {
            GravityType::Undefined
        } else if v == 1 {
            GravityType::NorthWest
        } else if v == 2 {
            GravityType::North
        } else if v == 3 {
            GravityType::NorthEast
        } else if v == 4 {
            GravityType::West
        } else if v == 5 {
            GravityType::Center
        } else if v == 6 {
            GravityType::East
        } else if v == 7 {
            GravityType::SouthWest
        } else if v == 8 {
            GravityType::South
        } else if v == 9 {
            GravityType::SouthEast
        } else {
            GravityType::Undefined
        }
    }

    /// Safe-to-native conversion: total and infallible.
    pub fn to_native(self) -> (r: u32)
        ensures
            r == self.as_native(),
    {
        match self {
            GravityType::Undefined => 0,
            GravityType::NorthWest => 1,
            GravityType::North => 2,
            GravityType::NorthEast => 3,
            GravityType::West => 4,
            GravityType::Center => 5,
            GravityType::East => 6,
            GravityType::SouthWest => 7,
            GravityType::South => 8,
            GravityType::SouthEast => 9,
        }
    }

    /// Native-to-safe conversion: total, with the fallback described at
    /// [`GravityType::of_native`] for unrecognized tags.
    pub fn from_native(v: u32) -> (r: GravityType)
        ensures
            r == GravityType::of_native(v),
    {
        if v == 0 {
            GravityType::Undefined
        } else if v == 1 {
            GravityType::NorthWest
        } else if v == 2 {
            GravityType::North
        } else if v == 3 {
            GravityType::NorthEast
        } else if v == 4 {
            GravityType::West
        } else if v == 5 {
            GravityType::Center
        } else if v == 6 {
            GravityType::East
        } else if v == 7 {
            GravityType::SouthWest
        } else if v == 8 {
            GravityType::South
        } else if v == 9 {
            GravityType::SouthEast
        } else {
            GravityType::Undefined
        }
    }

    /// Law: mapping a variant to its native tag and back returns the variant.
    pub proof fn lemma_native_roundtrip(self)
        ensures
            GravityType::of_native(self.as_native()) == self,
    {
    }

    /// Law: every tag above the greatest defined one, not just the next,
    /// falls back to the default variant rather than failing.
    pub proof fn lemma_unknown_tag_default(v: u32)
        requires
            v > GravityType::max_native(),
        ensures
            GravityType::of_native(v) == GravityType::Undefined,
    {
    }
}

impl Default for GravityType {
    /// The documented default variant, also the fallback of [`GravityType::of_native`].
    fn default() -> (r: Self)
        ensures
            r == GravityType::Undefined,
    {
        GravityType::Undefined
    }
}

} // verus!
