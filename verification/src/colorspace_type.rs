//! The colorspace an image's pixel values are expressed in.

use vstd::prelude::*;

verus! {

/// The colorspace an image's pixel values are expressed in.
///
/// The native library numbers these options consecutively from zero, in the
/// order declared here, so the declaration order is part of the contract.
#[derive(Clone, Copy, Debug, PartialEq, Eq, Structural)]
#[allow(non_camel_case_types)]
pub enum ColorspaceType {
    Undefined,
    CMY,
    CMYK,
    GRAY,
    HCL,
    HCLp,
    HSB,
    HSI,
    HSL,
    HSV,
    HWB,
    Lab,
    LCH,
    LCHab,
    LCHuv,
    Log,
    LMS,
    Luv,
    OHTA,
    Rec601YCbCr,
    Rec709YCbCr,
    RGB,
    scRGB,
    sRGB,
    Transparent,
    xyY,
    XYZ,
    YCbCr,
    YCC,
    YDbDr,
    YIQ,
    YPbPr,
    YUV,
    LinearGRAY,
    Jzazbz,
    DisplayP3,
    Adobe98,
    ProPhoto,
    Oklab,
    Oklch,
}

impl ColorspaceType {
    /// The native tag a variant maps to.
    pub open spec fn as_native(self) -> u32 {
        match self {
            ColorspaceType::Undefined => 0,
            ColorspaceType::CMY => 1,
            ColorspaceType::CMYK => 2,
            ColorspaceType::GRAY => 3,
            ColorspaceType::HCL => 4,
            ColorspaceType::HCLp => 5,
            ColorspaceType::HSB => 6,
            ColorspaceType::HSI => 7,
            ColorspaceType::HSL => 8,
            ColorspaceType::HSV => 9,
            ColorspaceType::HWB => 10,
            ColorspaceType::Lab => 11,
            ColorspaceType::LCH => 12,
            ColorspaceType::LCHab => 13,
            ColorspaceType::LCHuv => 14,
            ColorspaceType::Log => 15,
            ColorspaceType::LMS => 16,
            ColorspaceType::Luv => 17,
            ColorspaceType::OHTA => 18,
            ColorspaceType::Rec601YCbCr => 19,
            ColorspaceType::Rec709YCbCr => 20,
            ColorspaceType::RGB => 21,
            ColorspaceType::scRGB => 22,
            ColorspaceType::sRGB => 23,
            ColorspaceType::Transparent => 24,
            ColorspaceType::xyY => 25,
            ColorspaceType::XYZ => 26,
            ColorspaceType::YCbCr => 27,
            ColorspaceType::YCC => 28,
            ColorspaceType::YDbDr => 29,
            ColorspaceType::YIQ => 30,
            ColorspaceType::YPbPr => 31,
            ColorspaceType::YUV => 32,
            ColorspaceType::LinearGRAY => 33,
            ColorspaceType::Jzazbz => 34,
            ColorspaceType::DisplayP3 => 35,
            ColorspaceType::Adobe98 => 36,
            ColorspaceType::ProPhoto => 37,
            ColorspaceType::Oklab => 38,
            ColorspaceType::Oklch => 39,
        }
    }

    /// The greatest native tag with a defined meaning for this option.
    pub open spec fn max_native() -> u32 {
        39
    }

    /// The variant a native tag maps back to.  A newer native library may
    /// define tags beyond the declared ones, so a tag above the greatest
    /// declared one falls back to `ColorspaceType::RGB`.
    pub open spec fn of_native(v: u32) -> ColorspaceType {
        if v == 0 {
            ColorspaceType::Undefined
        } else if v == 1 {
            ColorspaceType::CMY
        } else if v == 2 {
            ColorspaceType::CMYK
        } else if v == 3 {
            ColorspaceType::GRAY
        } else if v == 4 {
            ColorspaceType::HCL
        } else if v == 5 {
            ColorspaceType::HCLp
        } else if v == 6 {
            ColorspaceType::HSB
        } else if v == 7 {
            ColorspaceType::HSI
        } else if v == 8 {
            ColorspaceType::HSL
        } else if v == 9 {
            ColorspaceType::HSV
        } else if v == 10 {
            ColorspaceType::HWB
        } else if v == 11 {
            ColorspaceType::Lab
        } else if v == 12 {
            ColorspaceType::LCH
        } else if v == 13 {
            ColorspaceType::LCHab
        } else if v == 14 {
            ColorspaceType::LCHuv
        } else if v == 15 {
            ColorspaceType::Log
        } else if v == 16 {
            ColorspaceType::LMS
        } else if v == 17 {
            ColorspaceType::Luv
        } else if v == 18 {
            ColorspaceType::OHTA
        } else if v == 19 {
            ColorspaceType::Rec601YCbCr
        } else if v == 20 {
            ColorspaceType::Rec709YCbCr
        } else if v == 21 {
            ColorspaceType::RGB
        } else if v == 22 {
            ColorspaceType::scRGB
        } else if v == 23 {
            ColorspaceType::sRGB
        } else if v == 24 {
            ColorspaceType::Transparent
        } else if v == 25 {
            ColorspaceType::xyY
        } else if v == 26 {
            ColorspaceType::XYZ
        } else if v == 27 {
            ColorspaceType::YCbCr
        } else if v == 28 {
            ColorspaceType::YCC
        } else if v == 29 {
            ColorspaceType::YDbDr
        } else if v == 30 {
            ColorspaceType::YIQ
        } else if v == 31 {
            ColorspaceType::YPbPr
        } else if v == 32 {
            ColorspaceType::YUV
        } else if v == 33 {
            ColorspaceType::LinearGRAY
        } else if v == 34 {
            ColorspaceType::Jzazbz
        } else if v == 35 {
            ColorspaceType::DisplayP3
        } else if v == 36 {
            ColorspaceType::Adobe98
        } else if v == 37 {
            ColorspaceType::ProPhoto
        } else if v == 38 {
            ColorspaceType::Oklab
        } else if v == 39 {
            ColorspaceType::Oklch
        } else {
            ColorspaceType::RGB
        }
    }

    /// Safe-to-native conversion: total and infallible.
    pub fn to_native(self) -> (r: u32)
        ensures
            r == self.as_native(),
    {
        match self {
            ColorspaceType::Undefined => 0,
            ColorspaceType::CMY => 1,
            ColorspaceType::CMYK => 2,
            ColorspaceType::GRAY => 3,
            ColorspaceType::HCL => 4,
            ColorspaceType::HCLp => 5,
            ColorspaceType::HSB => 6,
            ColorspaceType::HSI => 7,
            ColorspaceType::HSL => 8,
            ColorspaceType::HSV => 9,
            ColorspaceType::HWB => 10,
            ColorspaceType::Lab => 11,
            ColorspaceType::LCH => 12,
            ColorspaceType::LCHab => 13,
            ColorspaceType::LCHuv => 14,
            ColorspaceType::Log => 15,
            ColorspaceType::LMS => 16,
            ColorspaceType::Luv => 17,
            ColorspaceType::OHTA => 18,
            ColorspaceType::Rec601YCbCr => 19,
            ColorspaceType::Rec709YCbCr => 20,
            ColorspaceType::RGB => 21,
            ColorspaceType::scRGB => 22,
            ColorspaceType::sRGB => 23,
            ColorspaceType::Transparent => 24,
            ColorspaceType::xyY => 25,
            ColorspaceType::XYZ => 26,
            ColorspaceType::YCbCr => 27,
            ColorspaceType::YCC => 28,
            ColorspaceType::YDbDr => 29,
            ColorspaceType::YIQ => 30,
            ColorspaceType::YPbPr => 31,
            ColorspaceType::YUV => 32,
            ColorspaceType::LinearGRAY => 33,
            ColorspaceType::Jzazbz => 34,
            ColorspaceType::DisplayP3 => 35,
            ColorspaceType::Adobe98 => 36,
            ColorspaceType::ProPhoto => 37,
            ColorspaceType::Oklab => 38,
            ColorspaceType::Oklch => 39,
        }
    }

    /// Native-to-safe conversion: total, with the fallback described at
    /// [`ColorspaceType::of_native`] for unrecognized tags.
    pub fn from_native(v: u32) -> (r: ColorspaceType)
        ensures
            r == ColorspaceType::of_native(v),
    {
        if v == 0 {
            ColorspaceType::Undefined
        } else if v == 1 {
            ColorspaceType::CMY
        } else if v == 2 {
            ColorspaceType::CMYK
        } else if v == 3 {
            ColorspaceType::GRAY
        } else if v == 4 {
            ColorspaceType::HCL
        } else if v == 5 {
            ColorspaceType::HCLp
        } else if v == 6 {
            ColorspaceType::HSB
        } else if v == 7 {
            ColorspaceType::HSI
        } else if v == 8 {
            ColorspaceType::HSL
        } else if v == 9 {
            ColorspaceType::HSV
        } else if v == 10 {
            ColorspaceType::HWB
        } else if v == 11 {
            ColorspaceType::Lab
        } else if v == 12 {
            ColorspaceType::LCH
        } else if v == 13 {
            ColorspaceType::LCHab
        } else if v == 14 {
            ColorspaceType::LCHuv
        } else if v == 15 {
            ColorspaceType::Log
        } else if v == 16 {
            ColorspaceType::LMS
        } else if v == 17 {
            ColorspaceType::Luv
        } else if v == 18 {
            ColorspaceType::OHTA
        } else if v == 19 {
            ColorspaceType::Rec601YCbCr
        } else if v == 20 {
            ColorspaceType::Rec709YCbCr
        } else if v == 21 {
            ColorspaceType::RGB
        } else if v == 22 {
            ColorspaceType::scRGB
        } else if v == 23 {
            ColorspaceType::sRGB
        } else if v == 24 {
            ColorspaceType::Transparent
        } else if v == 25 {
            ColorspaceType::xyY
        } else if v == 26 {
            ColorspaceType::XYZ
        } else if v == 27 {
            ColorspaceType::YCbCr
        } else if v == 28 {
            ColorspaceType::YCC
        } else if v == 29 {
            ColorspaceType::YDbDr
        } else if v == 30 {
            ColorspaceType::YIQ
        } else if v == 31 {
            ColorspaceType::YPbPr
        } else if v == 32 {
            ColorspaceType::YUV
        } else if v == 33 {
            ColorspaceType::LinearGRAY
        } else if v == 34 {
            ColorspaceType::Jzazbz
        } else if v == 35 {
            ColorspaceType::DisplayP3
        } else if v == 36 {
            ColorspaceType::Adobe98
        } else if v == 37 {
            ColorspaceType::ProPhoto
        } else if v == 38 {
            ColorspaceType::Oklab
        } else if v == 39 {
            ColorspaceType::Oklch
        } else {
            ColorspaceType::RGB
        }
    }

    /// Law: mapping a variant to its native tag and back returns the variant.
    pub proof fn lemma_native_roundtrip(self)
        ensures
            ColorspaceType::of_native(self.as_native()) == self,
    {
    }

    /// Law: every tag above the greatest defined one, not just the next,
    /// falls back to the default variant rather than failing.
    pub proof fn lemma_unknown_tag_default(v: u32)
        requires
            v > ColorspaceType::max_native(),
        ensures
            ColorspaceType::of_native(v) == ColorspaceType::RGB,
    {
    }
}

impl Default for ColorspaceType {
    /// The documented default variant, also the fallback of [`ColorspaceType::of_native`].
    fn default() -> (r: Self)
        ensures
            r == ColorspaceType::RGB,
    {
        ColorspaceType::RGB
    }
}

} // verus!
