//! The pixel layout an image is stored or written with.

use vstd::prelude::*;

verus! {

/// The pixel layout an image is stored or written with.
///
/// The native library numbers these options consecutively from zero, in the
/// order declared here, so the declaration order is part of the contract.
#[derive(Clone, Copy, Debug, PartialEq, Eq, Structural)]
pub enum ImageType {
    Undefined,
    Bilevel,
    Grayscale,
    GrayscaleAlpha,
    Palette,
    PaletteAlpha,
    TrueColor,
    TrueColorAlpha,
    ColorSeparation,
    ColorSeparationAlpha,
    Optimize,
    PaletteBilevelAlpha,
}

impl ImageType {
    /// The native tag a variant maps to.
    pub open spec fn as_native(self) -> u32 {
        match self {
            ImageType::Undefined => 0,
            ImageType::Bilevel => 1,
            ImageType::Grayscale => 2,
            ImageType::GrayscaleAlpha => 3,
            ImageType::Palette => 4,
            ImageType::PaletteAlpha => 5,
            ImageType::TrueColor => 6,
            ImageType::TrueColorAlpha => 7,
            ImageType::ColorSeparation => 8,
            ImageType::ColorSeparationAlpha => 9,
            ImageType::Optimize => 10,
            ImageType::PaletteBilevelAlpha => 11,
        }
    }

    /// The greatest native tag with a defined meaning for this option.
    pub open spec fn max_native() -> u32 {
        11
    }

    /// The variant a native tag maps back to.  A newer native library may
    /// define tags beyond the declared ones, so a tag above the greatest
    /// declared one falls back to `ImageType::Undefined`.
    pub open spec fn of_native(v: u32) -> ImageType {
        if v == 0 {
            ImageType::Undefined
        } else if v == 1 {
            ImageType::Bilevel
        } else if v == 2 {
            ImageType::Grayscale
        } else if v == 3 {
            ImageType::GrayscaleAlpha
        } else if v == 4 {
            ImageType::Palette
        } else if v == 5 {
            ImageType::PaletteAlpha
        } else if v == 6 {
            ImageType::TrueColor
        } else if v == 7 {
            ImageType::TrueColorAlpha
        } else if v == 8 {
            ImageType::ColorSeparation
        } else if v == 9 {
            ImageType::ColorSeparationAlpha
        } else if v == 10 {
            ImageType::Optimize
        } else if v == 11 {
            ImageType::PaletteBilevelAlpha
        } else {
            ImageType::Undefined
        }
    }

    /// Safe-to-native conversion: total and infallible.
    pub fn to_native(self) -> (r: u32)
        ensures
            r == self.as_native(),
    {
        match self {
            ImageType::Undefined => 0,
            ImageType::Bilevel => 1,
            ImageType::Grayscale => 2,
            ImageType::GrayscaleAlpha => 3,
            ImageType::Palette => 4,
            ImageType::PaletteAlpha => 5,
            ImageType::TrueColor => 6,
            ImageType::TrueColorAlpha => 7,
            ImageType::ColorSeparation => 8,
            ImageType::ColorSeparationAlpha => 9,
            ImageType::Optimize => 10,
            ImageType::PaletteBilevelAlpha => 11,
        }
    }

    /// Native-to-safe conversion: total, with the fallback described at
    /// [`ImageType::of_native`] for unrecognized tags.
    pub fn from_native(v: u32) -> (r: ImageType)
        ensures
            r == ImageType::of_native(v),
    {
        if v == 0 {
            ImageType::Undefined
        } else if v == 1 {
            ImageType::Bilevel
        } else if v == 2 {
            ImageType::Grayscale
        } else if v == 3 {
            ImageType::GrayscaleAlpha
        } else if v == 4 {
            ImageType::Palette
        } else if v == 5 {
            ImageType::PaletteAlpha
        } else if v == 6 {
            ImageType::TrueColor
        } else if v == 7 {
            ImageType::TrueColorAlpha
        } else if v == 8 {
            ImageType::ColorSeparation
        } else if v == 9 {
            ImageType::ColorSeparationAlpha
        } else if v == 10 {
            ImageType::Optimize
        } else if v == 11 {
            ImageType::PaletteBilevelAlpha
        } else {
            ImageType::Undefined
        }
    }

    /// Law: mapping a variant to its native tag and back returns the variant.
    pub proof fn lemma_native_roundtrip(self)
        ensures
            ImageType::of_native(self.as_native()) == self,
    {
    }

    /// Law: every tag above the greatest defined one, not just the next,
    /// falls back to the default variant rather than failing.
    pub proof fn lemma_unknown_tag_default(v: u32)
        requires
            v > ImageType::max_native(),
        ensures
            ImageType::of_native(v) == ImageType::Undefined,
    {
    }
}

impl Default for ImageType {
    /// The documented default variant, also the fallback of [`ImageType::of_native`].
    fn default() -> (r: Self)
        ensures
            r == ImageType::Undefined,
    {
        ImageType::Undefined
    }
}

} // verus!
