//! The channels of an image an operation applies to.

use vstd::prelude::*;

verus! {

/// The channels of an image an operation applies to.
///
/// The native tags are bit-mask values, written out per variant below.
/// Unlike the other option types, several variants share one native tag:
/// for example the red, gray and cyan channels are all stored first, so
/// they carry the same mask bit, and the composite-mask bit doubles as
/// the tag that selects the RGB channels.  The native-to-safe direction
/// therefore returns the first declared owner of a tag.
#[derive(Clone, Copy, Debug, PartialEq, Eq, Structural)]
#[allow(non_camel_case_types)]
pub enum ChannelType {
    Undefined,
    RedChannel,
    GrayChannel,
    CyanChannel,
    LChannel,
    GreenChannel,
    MagentaChannel,
    aChannel,
    BlueChannel,
    bChannel,
    YellowChannel,
    BlackChannel,
    AlphaChannel,
    OpacityChannel,
    IndexChannel,
    ReadMaskChannel,
    WriteMaskChannel,
    MetaChannel,
    CompositeMaskChannel,
    CompositeChannels,
    AllChannels,
    TrueAlphaChannel,
    RGBChannels,
    GrayChannels,
    SyncChannels,
    DefaultChannels,
}

impl ChannelType {
    /// The native mask a variant maps to.
    pub open spec fn as_native(self) -> u32 {
        match self {
            ChannelType::Undefined => 0x0000,
            ChannelType::RedChannel => 0x0001,
            ChannelType::GrayChannel => 0x0001,
            ChannelType::CyanChannel => 0x0001,
            ChannelType::LChannel => 0x0001,
            ChannelType::GreenChannel => 0x0002,
            ChannelType::MagentaChannel => 0x0002,
            ChannelType::aChannel => 0x0002,
            ChannelType::BlueChannel => 0x0004,
            ChannelType::bChannel => 0x0002,
            ChannelType::YellowChannel => 0x0004,
            ChannelType::BlackChannel => 0x0008,
            ChannelType::AlphaChannel => 0x0010,
            ChannelType::OpacityChannel => 0x0010,
            ChannelType::IndexChannel => 0x0020,
            ChannelType::ReadMaskChannel => 0x0040,
            ChannelType::WriteMaskChannel => 0x0080,
            ChannelType::MetaChannel => 0x0100,
            ChannelType::CompositeMaskChannel => 0x0200,
            ChannelType::CompositeChannels => 0x001F,
            ChannelType::AllChannels => 0x7ffffff,
            ChannelType::TrueAlphaChannel => 0x0100,
            ChannelType::RGBChannels => 0x0200,
            ChannelType::GrayChannels => 0x0400,
            ChannelType::SyncChannels => 0x20000,
            ChannelType::DefaultChannels => 0x7ffffff,
        }
    }

    /// The variant a native mask maps back to: the first declared owner of
    /// the mask.  A mask that belongs to no variant falls back to
    /// `ChannelType::Undefined`, the conservative choice for a value that
    /// selects no known channel.
    pub open spec fn of_native(v: u32) -> ChannelType {
        if v == 0x0000 {
            ChannelType::Undefined
        } else if v == 0x0001 {
            ChannelType::RedChannel
        } else if v == 0x0002 {
            ChannelType::GreenChannel
        } else if v == 0x0004 {
            ChannelType::BlueChannel
        } else if v == 0x0008 {
            ChannelType::BlackChannel
        } else if v == 0x0010 {
            ChannelType::AlphaChannel
        } else if v == 0x0020 {
            ChannelType::IndexChannel
        } else if v == 0x0040 {
            ChannelType::ReadMaskChannel
        } else if v == 0x0080 {
            ChannelType::WriteMaskChannel
        } else if v == 0x0100 {
            ChannelType::MetaChannel
        } else if v == 0x0200 {
            ChannelType::CompositeMaskChannel
        } else if v == 0x001F {
            ChannelType::CompositeChannels
        } else if v == 0x7ffffff {
            ChannelType::AllChannels
        } else if v == 0x0400 {
            ChannelType::GrayChannels
        } else if v == 0x20000 {
            ChannelType::SyncChannels
        } else {
            ChannelType::Undefined
        }
    }

    /// Safe-to-native conversion: total and infallible.
    pub fn to_native(self) -> (r: u32)
        ensures
            r == self.as_native(),
    {
        match self {
            ChannelType::Undefined => 0x0000,
            ChannelType::RedChannel => 0x0001,
            ChannelType::GrayChannel => 0x0001,
            ChannelType::CyanChannel => 0x0001,
            ChannelType::LChannel => 0x0001,
            ChannelType::GreenChannel => 0x0002,
            ChannelType::MagentaChannel => 0x0002,
            ChannelType::aChannel => 0x0002,
            ChannelType::BlueChannel => 0x0004,
            ChannelType::bChannel => 0x0002,
            ChannelType::YellowChannel => 0x0004,
            ChannelType::BlackChannel => 0x0008,
            ChannelType::AlphaChannel => 0x0010,
            ChannelType::OpacityChannel => 0x0010,
            ChannelType::IndexChannel => 0x0020,
            ChannelType::ReadMaskChannel => 0x0040,
            ChannelType::WriteMaskChannel => 0x0080,
            ChannelType::MetaChannel => 0x0100,
            ChannelType::CompositeMaskChannel => 0x0200,
            ChannelType::CompositeChannels => 0x001F,
            ChannelType::AllChannels => 0x7ffffff,
            ChannelType::TrueAlphaChannel => 0x0100,
            ChannelType::RGBChannels => 0x0200,
            ChannelType::GrayChannels => 0x0400,
            ChannelType::SyncChannels => 0x20000,
            ChannelType::DefaultChannels => 0x7ffffff,
        }
    }

    /// Native-to-safe conversion: total, with the owner-or-fallback rule
    /// described at [`ChannelType::of_native`].
    pub fn from_native(v: u32) -> (r: ChannelType)
        ensures
            r == ChannelType::of_native(v),
    {
        if v == 0x0000 {
            ChannelType::Undefined
        } else if v == 0x0001 {
            ChannelType::RedChannel
        } else if v == 0x0002 {
            ChannelType::GreenChannel
        } else if v == 0x0004 {
            ChannelType::BlueChannel
        } else if v == 0x0008 {
            ChannelType::BlackChannel
        } else if v == 0x0010 {
            ChannelType::AlphaChannel
        } else if v == 0x0020 {
            ChannelType::IndexChannel
        } else if v == 0x0040 {
            ChannelType::ReadMaskChannel
        } else if v == 0x0080 {
            ChannelType::WriteMaskChannel
        } else if v == 0x0100 {
            ChannelType::MetaChannel
        } else if v == 0x0200 {
            ChannelType::CompositeMaskChannel
        } else if v == 0x001F {
            ChannelType::CompositeChannels
        } else if v == 0x7ffffff {
            ChannelType::AllChannels
        } else if v == 0x0400 {
            ChannelType::GrayChannels
        } else if v == 0x20000 {
            ChannelType::SyncChannels
        } else {
            ChannelType::Undefined
        }
    }

    /// Whether this variant is the first declared owner of its native mask;
    /// later variants share a mask with an earlier one.
    pub open spec fn owns_tag(self) -> bool {
        ChannelType::of_native(self.as_native()) == self
    }

    /// Law: a variant that owns its native mask maps to that mask and back
    /// to itself.  A variant sharing a mask, such as the cyan channel whose
    /// mask is the red channel's, comes back as the mask's owner instead.
    pub proof fn lemma_native_roundtrip(self)
        requires
            self.owns_tag(),
        ensures
            ChannelType::of_native(self.as_native()) == self,
    {
    }

    /// Whether a native mask is one the native-to-safe direction recognizes.
    pub open spec fn is_known_mask(v: u32) -> bool {
        ||| v == 0x0000
        ||| v == 0x0001
        ||| v == 0x0002
        ||| v == 0x0004
        ||| v == 0x0008
        ||| v == 0x0010
        ||| v == 0x0020
        ||| v == 0x0040
        ||| v == 0x0080
        ||| v == 0x0100
        ||| v == 0x0200
        ||| v == 0x001F
        ||| v == 0x7ffffff
        ||| v == 0x0400
        ||| v == 0x20000
    }

    /// Law: every mask the native-to-safe direction recognizes converts back
    /// to exactly the mask it came from, and every other mask falls back to
    /// `ChannelType::Undefined`, whose mask selects no channel.
    pub proof fn lemma_known_mask_roundtrip(v: u32)
        ensures
            ChannelType::is_known_mask(v) ==> ChannelType::of_native(v).as_native() == v,
            !ChannelType::is_known_mask(v) ==> ChannelType::of_native(v) == ChannelType::Undefined,
    {
    }
}

impl Default for ChannelType {
    /// The documented default: all channels.
    fn default() -> (r: Self)
        ensures
            r == ChannelType::DefaultChannels,
    {
        ChannelType::DefaultChannels
    }
}

} // verus!
