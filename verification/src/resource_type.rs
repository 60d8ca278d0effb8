//! The kind of resource the native library can put a limit on.

use vstd::prelude::*;

verus! {

/// The kind of resource the native library can put a limit on.
///
/// The native library numbers these options consecutively from zero, in the
/// order declared here, so the declaration order is part of the contract.
#[derive(Clone, Copy, Debug, PartialEq, Eq, Structural)]
pub enum ResourceType {
    Undefined,
    Area,
    Disk,
    File,
    Height,
    MappedMemory,
    Memory,
    Thread,
    Throttle,
    Time,
    Width,
    ListLength,
}

impl ResourceType {
    /// The native tag a variant maps to.
    pub open spec fn as_native(self) -> u32 {
        match self {
            ResourceType::Undefined => 0,
            ResourceType::Area => 1,
            ResourceType::Disk => 2,
            ResourceType::File => 3,
            ResourceType::Height => 4,
            ResourceType::MappedMemory => 5,
            ResourceType::Memory => 6,
            ResourceType::Thread => 7,
            ResourceType::Throttle => 8,
            ResourceType::Time => 9,
            ResourceType::Width => 10,
            ResourceType::ListLength => 11,
        }
    }

    /// The greatest native tag with a defined meaning for this option.
    pub open spec fn max_native() -> u32 {
        11
    }

    /// The variant a native tag maps back to.  A newer native library may
    /// define tags beyond the declared ones, so a tag above the greatest
    /// declared one falls back to `ResourceType::Undefined`.
    pub open spec fn of_native(v: u32) -> ResourceType {
        if v == 0 {
            ResourceType::Undefined
        } else if v == 1 {
            ResourceType::Area
        } else if v == 2 {
            ResourceType::Disk
        } else if v == 3 {
            ResourceType::File
        } else if v == 4 {
            ResourceType::Height
        } else if v == 5 {
            ResourceType::MappedMemory
        } else if v == 6 {
            ResourceType::Memory
        } else if v == 7 {
            ResourceType::Thread
        } else if v == 8 {
            ResourceType::Throttle
        } else if v == 9 {
            ResourceType::Time
        } else if v == 10 {
            ResourceType::Width
        } else if v == 11 {
            ResourceType::ListLength
        } else {
            ResourceType::Undefined
        }
    }

    /// Safe-to-native conversion: total and infallible.
    pub fn to_native(self) -> (r: u32)
        ensures
            r == self.as_native(),
    {
        match self {
            ResourceType::Undefined => 0,
            ResourceType::Area => 1,
            ResourceType::Disk => 2,
            ResourceType::File => 3,
            ResourceType::Height => 4,
            ResourceType::MappedMemory => 5,
            ResourceType::Memory => 6,
            ResourceType::Thread => 7,
            ResourceType::Throttle => 8,
            ResourceType::Time => 9,
            ResourceType::Width => 10,
            ResourceType::ListLength => 11,
        }
    }

    /// Native-to-safe conversion: total, with the fallback described at
    /// [`ResourceType::of_native`] for unrecognized tags.
    pub fn from_native(v: u32) -> (r: ResourceType)
        ensures
            r == ResourceType::of_native(v),
    {
        if v == 0 {
            ResourceType::Undefined
        } else if v == 1 {
            ResourceType::Area
        } else if v == 2 {
            ResourceType::Disk
        } else if v == 3 {
            ResourceType::File
        } else if v == 4 {
            ResourceType::Height
        } else if v == 5 {
            ResourceType::MappedMemory
        } else if v == 6 {
            ResourceType::Memory
        } else if v == 7 {
            ResourceType::Thread
        } else if v == 8 {
            ResourceType::Throttle
        } else if v == 9 {
            ResourceType::Time
        } else if v == 10 {
            ResourceType::Width
        } else if v == 11 {
            ResourceType::ListLength
        } else {
            ResourceType::Undefined
        }
    }

    /// Law: mapping a variant to its native tag and back returns the variant.
    pub proof fn lemma_native_roundtrip(self)
        ensures
            ResourceType::of_native(self.as_native()) == self,
    {
    }

    /// Law: every tag above the greatest defined one, not just the next,
    /// falls back to the default variant rather than failing.
    pub proof fn lemma_unknown_tag_default(v: u32)
        requires
            v > ResourceType::max_native(),
        ensures
            ResourceType::of_native(v) == ResourceType::Undefined,
    {
    }
}

} // verus!
