//! The dithering strategy used during color reduction.

use vstd::prelude::*;

verus! {

/// The dithering strategy used during color reduction.
///
/// The native library numbers these options consecutively from zero, in the
/// order declared here, so the declaration order is part of the contract.
#[derive(Clone, Copy, Debug, PartialEq, Eq, Structural)]
pub enum DitherMethod {
    Undefined,
    No,
    Riemersma,
    FloydSteinberg,
}

impl DitherMethod {
    /// The native tag a variant maps to.
    pub open spec fn as_native(self) -> u32 {
        match self {
            DitherMethod::Undefined => 0,
            DitherMethod::No => 1,
            DitherMethod::Riemersma => 2,
            DitherMethod::FloydSteinberg => 3,
        }
    }

    /// The greatest native tag with a defined meaning for this option.
    pub open spec fn max_native() -> u32 {
        3
    }

    /// The variant a native tag maps back to.  A newer native library may
    /// define tags beyond the declared ones, so a tag above the greatest
    /// declared one falls back to `DitherMethod::No`.
    pub open spec fn of_native(v: u32) -> DitherMethod {
        if v == 0 {
            DitherMethod::Undefined
        } else if v == 1 {
            DitherMethod::No
        } else if v == 2 {
            DitherMethod::Riemersma
        } else if v == 3 {
            DitherMethod::FloydSteinberg
        } else {
            DitherMethod::No
        }
    }

    /// Safe-to-native conversion: total and infallible.
    pub fn to_native(self) -> (r: u32)
        ensures
            r == self.as_native(),
    {
        match self {
            DitherMethod::Undefined => 0,
            DitherMethod::No => 1,
            DitherMethod::Riemersma => 2,
            DitherMethod::FloydSteinberg => 3,
        }
    }

    /// Native-to-safe conversion: total, with the fallback described at
    /// [`DitherMethod::of_native`] for unrecognized tags.
    pub fn from_native(v: u32) -> (r: DitherMethod)
        ensures
            r == DitherMethod::of_native(v),
    {
        if v == 0 {
            DitherMethod::Undefined
        } else if v == 1 {
            DitherMethod::No
        } else if v == 2 {
            DitherMethod::Riemersma
        } else if v == 3 {
            DitherMethod::FloydSteinberg
        } else {
            DitherMethod::No
        }
    }

    /// Law: mapping a variant to its native tag and back returns the variant.
    pub proof fn lemma_native_roundtrip(self)
        ensures
            DitherMethod::of_native(self.as_native()) == self,
    {
    }

    /// Law: every tag above the greatest defined one, not just the next,
    /// falls back to the default variant rather than failing.
    pub proof fn lemma_unknown_tag_default(v: u32)
        requires
            v > DitherMethod::max_native(),
        ensures
            DitherMethod::of_native(v) == DitherMethod::No,
    {
    }
}

impl Default for DitherMethod {
    /// The documented default variant, also the fallback of [`DitherMethod::of_native`].
    fn default() -> (r: Self)
        ensures
            r == DitherMethod::No,
    {
        DitherMethod::No
    }
}

} // verus!
