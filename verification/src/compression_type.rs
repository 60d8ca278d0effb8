//! The compression scheme used when encoding an image.

use vstd::prelude::*;

verus! {

/// The compression scheme used when encoding an image.
///
/// The native library numbers these options consecutively from zero, in the
/// order declared here, so the declaration order is part of the contract.
#[derive(Clone, Copy, Debug, PartialEq, Eq, Structural)]
pub enum CompressionType {
    Undefined,
    B44A,
    B44,
    BZip,
    DXT1,
    DXT3,
    DXT5,
    Fax,
    Group4,
    JBIG1,
    JBIG2,
    JPEG2000,
    JPEG,
    LosslessJPEG,
    LZMA,
    LZW,
    No,
    Piz,
    Pxr24,
    RLE,
    Zip,
    ZipS,
    Zstd,
    WebP,
    DWAA,
    DWAB,
    BC7,
    BC5,
    LERC,
}

impl CompressionType {
    /// The native tag a variant maps to.
    pub open spec fn as_native(self) -> u32 {
        match self {
            CompressionType::Undefined => 0,
            CompressionType::B44A => 1,
            CompressionType::B44 => 2,
            CompressionType::BZip => 3,
            CompressionType::DXT1 => 4,
            CompressionType::DXT3 => 5,
            CompressionType::DXT5 => 6,
            CompressionType::Fax => 7,
            CompressionType::Group4 => 8,
            CompressionType::JBIG1 => 9,
            CompressionType::JBIG2 => 10,
            CompressionType::JPEG2000 => 11,
            CompressionType::JPEG => 12,
            CompressionType::LosslessJPEG => 13,
            CompressionType::LZMA => 14,
            CompressionType::LZW => 15,
            CompressionType::No => 16,
            CompressionType::Piz => 17,
            CompressionType::Pxr24 => 18,
            CompressionType::RLE => 19,
            CompressionType::Zip => 20,
            CompressionType::ZipS => 21,
            CompressionType::Zstd => 22,
            CompressionType::WebP => 23,
            CompressionType::DWAA => 24,
            CompressionType::DWAB => 25,
            CompressionType::BC7 => 26,
            CompressionType::BC5 => 27,
            CompressionType::LERC => 28,
        }
    }

    /// The greatest native tag with a defined meaning for this option.
    pub open spec fn max_native() -> u32 {
        28
    }

    /// The variant a native tag maps back to.  A newer native library may
    /// define tags beyond the declared ones, so a tag above the greatest
    /// declared one falls back to `CompressionType::Undefined`.
    pub open spec fn of_native(v: u32) -> CompressionType {
        if v == 0 {
            CompressionType::Undefined
        } else if v == 1 {
            CompressionType::B44A
        } else if v == 2 {
            CompressionType::B44
        } else if v == 3 {
            CompressionType::BZip
        } else if v == 4 {
            CompressionType::DXT1
        } else if v == 5 {
            CompressionType::DXT3
        } else if v == 6 {
            CompressionType::DXT5
        } else if v == 7 {
            CompressionType::Fax
        } else if v == 8 {
            CompressionType::Group4
        } else if v == 9 {
            CompressionType::JBIG1
        } else if v == 10 {
            CompressionType::JBIG2
        } else if v == 11 {
            CompressionType::JPEG2000
        } else if v == 12 {
            CompressionType::JPEG
        } else if v == 13 {
            CompressionType::LosslessJPEG
        } else if v == 14 {
            CompressionType::LZMA
        } else if v == 15 {
            CompressionType::LZW
        } else if v == 16 {
            CompressionType::No
        } else if v == 17 {
            CompressionType::Piz
        } else if v == 18 {
            CompressionType::Pxr24
        } else if v == 19 {
            CompressionType::RLE
        } else if v == 20 {
            CompressionType::Zip
        } else if v == 21 {
            CompressionType::ZipS
        } else if v == 22 {
            CompressionType::Zstd
        } else if v == 23 {
            CompressionType::WebP
        } else if v == 24 {
            CompressionType::DWAA
        } else if v == 25 {
            CompressionType::DWAB
        } else if v == 26 {
            CompressionType::BC7
        } else if v == 27 {
            CompressionType::BC5
        } else if v == 28 {
            CompressionType::LERC
        } else {
            CompressionType::Undefined
        }
    }

    /// Safe-to-native conversion: total and infallible.
    pub fn to_native(self) -> (r: u32)
        ensures
            r == self.as_native(),
    {
        match self {
            CompressionType::Undefined => 0,
            CompressionType::B44A => 1,
            CompressionType::B44 => 2,
            CompressionType::BZip => 3,
            CompressionType::DXT1 => 4,
            CompressionType::DXT3 => 5,
            CompressionType::DXT5 => 6,
            CompressionType::Fax => 7,
            CompressionType::Group4 => 8,
            CompressionType::JBIG1 => 9,
            CompressionType::JBIG2 => 10,
            CompressionType::JPEG2000 => 11,
            CompressionType::JPEG => 12,
            CompressionType::LosslessJPEG => 13,
            CompressionType::LZMA => 14,
            CompressionType::LZW => 15,
            CompressionType::No => 16,
            CompressionType::Piz => 17,
            CompressionType::Pxr24 => 18,
            CompressionType::RLE => 19,
            CompressionType::Zip => 20,
            CompressionType::ZipS => 21,
            CompressionType::Zstd => 22,
            CompressionType::WebP => 23,
            CompressionType::DWAA => 24,
            CompressionType::DWAB => 25,
            CompressionType::BC7 => 26,
            CompressionType::BC5 => 27,
            CompressionType::LERC => 28,
        }
    }

    /// Native-to-safe conversion: total, with the fallback described at
    /// [`CompressionType::of_native`] for unrecognized tags.
    pub fn from_native(v: u32) -> (r: CompressionType)
        ensures
            r == CompressionType::of_native(v),
    {
        if v == 0 {
            CompressionType::Undefined
        } else if v == 1 {
            CompressionType::B44A
        } else if v == 2 {
            CompressionType::B44
        } else if v == 3 {
            CompressionType::BZip
        } else if v == 4 {
            CompressionType::DXT1
        } else if v == 5 {
            CompressionType::DXT3
        } else if v == 6 {
            CompressionType::DXT5
        } else if v == 7 {
            CompressionType::Fax
        } else if v == 8 {
            CompressionType::Group4
        } else if v == 9 {
            CompressionType::JBIG1
        } else if v == 10 {
            CompressionType::JBIG2
        } else if v == 11 {
            CompressionType::JPEG2000
        } else if v == 12 {
            CompressionType::JPEG
        } else if v == 13 {
            CompressionType::LosslessJPEG
        } else if v == 14 {
            CompressionType::LZMA
        } else if v == 15 {
            CompressionType::LZW
        } else if v == 16 {
            CompressionType::No
        } else if v == 17 {
            CompressionType::Piz
        } else if v == 18 {
            CompressionType::Pxr24
        } else if v == 19 {
            CompressionType::RLE
        } else if v == 20 {
            CompressionType::Zip
        } else if v == 21 {
            CompressionType::ZipS
        } else if v == 22 {
            CompressionType::Zstd
        } else if v == 23 {
            CompressionType::WebP
        } else if v == 24 {
            CompressionType::DWAA
        } else if v == 25 {
            CompressionType::DWAB
        } else if v == 26 {
            CompressionType::BC7
        } else if v == 27 {
            CompressionType::BC5
        } else if v == 28 {
            CompressionType::LERC
        } else {
            CompressionType::Undefined
        }
    }

    /// Law: mapping a variant to its native tag and back returns the variant.
    pub proof fn lemma_native_roundtrip(self)
        ensures
            CompressionType::of_native(self.as_native()) == self,
    {
    }

    /// Law: every tag above the greatest defined one, not just the next,
    /// falls back to the default variant rather than failing.
    pub proof fn lemma_unknown_tag_default(v: u32)
        requires
            v > CompressionType::max_native(),
        ensures
            CompressionType::of_native(v) == CompressionType::Undefined,
    {
    }
}

impl Default for CompressionType {
    /// The documented default variant, also the fallback of [`CompressionType::of_native`].
    fn default() -> (r: Self)
        ensures
            r == CompressionType::Undefined,
    {
        CompressionType::Undefined
    }
}

} // verus!
