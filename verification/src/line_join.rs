//! The shape drawn where two stroked path segments meet.

use vstd::prelude::*;

verus! {

/// The shape drawn where two stroked path segments meet.
///
/// The native library numbers these options consecutively from zero, in the
/// order declared here, so the declaration order is part of the contract.
#[derive(Clone, Copy, Debug, PartialEq, Eq, Structural)]
pub enum LineJoin {
    Undefined,
    Miter,
    Round,
    Bevel,
}

impl LineJoin {
    /// The native tag a variant maps to.
    pub open spec fn as_native(self) -> u32 {
        match self {
            LineJoin::Undefined => 0,
            LineJoin::Miter => 1,
            LineJoin::Round => 2,
            LineJoin::Bevel => 3,
        }
    }

    /// The greatest native tag with a defined meaning for this option.
    pub open spec fn max_native() -> u32 {
        3
    }

    /// The variant a native tag maps back to.  A newer native library may
    /// define tags beyond the declared ones, so a tag above the greatest
    /// declared one falls back to `LineJoin::Undefined`.
    pub open spec fn of_native(v: u32) -> LineJoin {
        if v == 0 {
            LineJoin::Undefined
        } else if v == 1 {
            LineJoin::Miter
        } else if v == 2 {
            LineJoin::Round
        } else if v == 3 {
            LineJoin::Bevel
        } else {
            LineJoin::Undefined
        }
    }

    /// Safe-to-native conversion: total and infallible.
    pub fn to_native(self) -> (r: u32)
        ensures
            r == self.as_native(),
    {
        match self {
            LineJoin::Undefined => 0,
            LineJoin::Miter => 1,
            LineJoin::Round => 2,
            LineJoin::Bevel => 3,
        }
    }

    /// Native-to-safe conversion: total, with the fallback described at
    /// [`LineJoin::of_native`] for unrecognized tags.
    pub fn from_native(v: u32) -> (r: LineJoin)
        ensures
            r == LineJoin::of_native(v),
    {
        if v == 0 {
            LineJoin::Undefined
        } else if v == 1 {
            LineJoin::Miter
        } else if v == 2 {
            LineJoin::Round
        } else if v == 3 {
            LineJoin::Bevel
        } else {
            LineJoin::Undefined
        }
    }

    /// Law: mapping a variant to its native tag and back returns the variant.
    pub proof fn lemma_native_roundtrip(self)
        ensures
            LineJoin::of_native(self.as_native()) == self,
    {
    }

    /// Law: every tag above the greatest defined one, not just the next,
    /// falls back to the default variant rather than failing.
    pub proof fn lemma_unknown_tag_default(v: u32)
        requires
            v > LineJoin::max_native(),
        ensures
            LineJoin::of_native(v) == LineJoin::Undefined,
    {
    }
}

impl Default for LineJoin {
    /// The documented default variant, also the fallback of [`LineJoin::of_native`].
    fn default() -> (r: Self)
        ensures
            r == LineJoin::Undefined,
    {
        LineJoin::Undefined
    }
}

} // verus!
