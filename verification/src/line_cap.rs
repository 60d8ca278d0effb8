//! The shape drawn at the ends of an open stroked path.

use vstd::prelude::*;

verus! {

/// The shape drawn at the ends of an open stroked path.
///
/// The native library numbers these options consecutively from zero, in the
/// order declared here, so the declaration order is part of the contract.
#[derive(Clone, Copy, Debug, PartialEq, Eq, Structural)]
pub enum LineCap {
    Undefined,
    Butt,
    Round,
    Square,
}

impl LineCap {
    /// The native tag a variant maps to.
    pub open spec fn as_native(self) -> u32 {
        match self {
            LineCap::Undefined => 0,
            LineCap::Butt => 1,
            LineCap::Round => 2,
            LineCap::Square => 3,
        }
    }

    /// The greatest native tag with a defined meaning for this option.
    pub open spec fn max_native() -> u32 {
        3
    }

    /// The variant a native tag maps back to.  A newer native library may
    /// define tags beyond the declared ones, so a tag above the greatest
    /// declared one falls back to `LineCap::Undefined`.
    pub open spec fn of_native(v: u32) -> LineCap {
        if v == 0 {
            LineCap::Undefined
        } else if v == 1 {
            LineCap::Butt
        } else if v == 2 {
            LineCap::Round
        } else if v == 3 {
            LineCap::Square
        } else {
            LineCap::Undefined
        }
    }

    /// Safe-to-native conversion: total and infallible.
    pub fn to_native(self) -> (r: u32)
        ensures
            r == self.as_native(),
    {
        match self {
            LineCap::Undefined => 0,
            LineCap::Butt => 1,
            LineCap::Round => 2,
            LineCap::Square => 3,
        }
    }

    /// Native-to-safe conversion: total, with the fallback described at
    /// [`LineCap::of_native`] for unrecognized tags.
    pub fn from_native(v: u32) -> (r: LineCap)
        ensures
            r == LineCap::of_native(v),
    {
        if v == 0 {
            LineCap::Undefined
        } else if v == 1 {
            LineCap::Butt
        } else if v == 2 {
            LineCap::Round
        } else if v == 3 {
            LineCap::Square
        } else {
            LineCap::Undefined
        }
    }

    /// Law: mapping a variant to its native tag and back returns the variant.
    pub proof fn lemma_native_roundtrip(self)
        ensures
            LineCap::of_native(self.as_native()) == self,
    {
    }

    /// Law: every tag above the greatest defined one, not just the next,
    /// falls back to the default variant rather than failing.
    pub proof fn lemma_unknown_tag_default(v: u32)
        requires
            v > LineCap::max_native(),
        ensures
            LineCap::of_native(v) == LineCap::Undefined,
    {
    }
}

impl Default for LineCap {
    /// The documented default variant, also the fallback of [`LineCap::of_native`].
    fn default() -> (r: Self)
        ensures
            r == LineCap::Undefined,
    {
        LineCap::Undefined
    }
}

} // verus!
