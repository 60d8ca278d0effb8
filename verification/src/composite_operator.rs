//! The blending rule applied when one image is composited onto another.

use vstd::prelude::*;

verus! {

/// The blending rule applied when one image is composited onto another.
///
/// The native library numbers these options consecutively from zero, in the
/// order declared here, so the declaration order is part of the contract.
#[derive(Clone, Copy, Debug, PartialEq, Eq, Structural)]
pub enum CompositeOperator {
    Undefined,
    Alpha,
    Atop,
    Blend,
    Blur,
    Bumpmap,
    ChangeMask,
    Clear,
    ColorBurn,
    ColorDodge,
    Colorize,
    CopyBlack,
    CopyBlue,
    Copy,
    CopyCyan,
    CopyGreen,
    CopyMagenta,
    CopyAlpha,
    CopyRed,
    CopyYellow,
    Darken,
    DarkenIntensity,
    Difference,
    Displace,
    Dissolve,
    Distort,
    DivideDst,
    DivideSrc,
    DstAtop,
    Dst,
    DstIn,
    DstOut,
    DstOver,
    Exclusion,
    HardLight,
    HardMix,
    Hue,
    In,
    Intensity,
    Lighten,
    LightenIntensity,
    LinearBurn,
    LinearDodge,
    LinearLight,
    Luminize,
    Mathematics,
    MinusDst,
    MinusSrc,
    Modulate,
    ModulusAdd,
    ModulusSubtract,
    Multiply,
    No,
    Out,
    Over,
    Overlay,
    PegtopLight,
    PinLight,
    Plus,
    Replace,
    Saturate,
    Screen,
    SoftLight,
    SrcAtop,
    Src,
    SrcIn,
    SrcOut,
    SrcOver,
    Threshold,
    VividLight,
    Xor,
    Stereo,
    Freeze,
    Interpolate,
    Negate,
    Reflect,
    SoftBurn,
    SoftDodge,
    Stamp,
    RMSE,
    SaliencyBlend,
    SeamlessBlend,
}

impl CompositeOperator {
    /// The native tag a variant maps to.
    pub open spec fn as_native(self) -> u32 {
        match self {
            CompositeOperator::Undefined => 0,
            CompositeOperator::Alpha => 1,
            CompositeOperator::Atop => 2,
            CompositeOperator::Blend => 3,
            CompositeOperator::Blur => 4,
            CompositeOperator::Bumpmap => 5,
            CompositeOperator::ChangeMask => 6,
            CompositeOperator::Clear => 7,
            CompositeOperator::ColorBurn => 8,
            CompositeOperator::ColorDodge => 9,
            CompositeOperator::Colorize => 10,
            CompositeOperator::CopyBlack => 11,
            CompositeOperator::CopyBlue => 12,
            CompositeOperator::Copy => 13,
            CompositeOperator::CopyCyan => 14,
            CompositeOperator::CopyGreen => 15,
            CompositeOperator::CopyMagenta => 16,
            CompositeOperator::CopyAlpha => 17,
            CompositeOperator::CopyRed => 18,
            CompositeOperator::CopyYellow => 19,
            CompositeOperator::Darken => 20,
            CompositeOperator::DarkenIntensity => 21,
            CompositeOperator::Difference => 22,
            CompositeOperator::Displace => 23,
            CompositeOperator::Dissolve => 24,
            CompositeOperator::Distort => 25,
            CompositeOperator::DivideDst => 26,
            CompositeOperator::DivideSrc => 27,
            CompositeOperator::DstAtop => 28,
            CompositeOperator::Dst => 29,
            CompositeOperator::DstIn => 30,
            CompositeOperator::DstOut => 31,
            CompositeOperator::DstOver => 32,
            CompositeOperator::Exclusion => 33,
            CompositeOperator::HardLight => 34,
            CompositeOperator::HardMix => 35,
            CompositeOperator::Hue => 36,
            CompositeOperator::In => 37,
            CompositeOperator::Intensity => 38,
            CompositeOperator::Lighten => 39,
            CompositeOperator::LightenIntensity => 40,
            CompositeOperator::LinearBurn => 41,
            CompositeOperator::LinearDodge => 42,
            CompositeOperator::LinearLight => 43,
            CompositeOperator::Luminize => 44,
            CompositeOperator::Mathematics => 45,
            CompositeOperator::MinusDst => 46,
            CompositeOperator::MinusSrc => 47,
            CompositeOperator::Modulate => 48,
            CompositeOperator::ModulusAdd => 49,
            CompositeOperator::ModulusSubtract => 50,
            CompositeOperator::Multiply => 51,
            CompositeOperator::No => 52,
            CompositeOperator::Out => 53,
            CompositeOperator::Over => 54,
            CompositeOperator::Overlay => 55,
            CompositeOperator::PegtopLight => 56,
            CompositeOperator::PinLight => 57,
            CompositeOperator::Plus => 58,
            CompositeOperator::Replace => 59,
            CompositeOperator::Saturate => 60,
            CompositeOperator::Screen => 61,
            CompositeOperator::SoftLight => 62,
            CompositeOperator::SrcAtop => 63,
            CompositeOperator::Src => 64,
            CompositeOperator::SrcIn => 65,
            CompositeOperator::SrcOut => 66,
            CompositeOperator::SrcOver => 67,
            CompositeOperator::Threshold => 68,
            CompositeOperator::VividLight => 69,
            CompositeOperator::Xor => 70,
            CompositeOperator::Stereo => 71,
            CompositeOperator::Freeze => 72,
            CompositeOperator::Interpolate => 73,
            CompositeOperator::Negate => 74,
            CompositeOperator::Reflect => 75,
            CompositeOperator::SoftBurn => 76,
            CompositeOperator::SoftDodge => 77,
            CompositeOperator::Stamp => 78,
            CompositeOperator::RMSE => 79,
            CompositeOperator::SaliencyBlend => 80,
            CompositeOperator::SeamlessBlend => 81,
        }
    }

    /// The greatest native tag with a defined meaning for this option.
    pub open spec fn max_native() -> u32 {
        81
    }

    /// The variant a native tag maps back to.  A newer native library may
    /// define tags beyond the declared ones, so a tag above the greatest
    /// declared one falls back to `CompositeOperator::Over`.
    pub open spec fn of_native(v: u32) -> CompositeOperator {
        if v == 0 {
            CompositeOperator::Undefined
        } else if v == 1 {
            CompositeOperator::Alpha
        } else if v == 2 {
            CompositeOperator::Atop
        } else if v == 3 {
            CompositeOperator::Blend
        } else if v == 4 {
            CompositeOperator::Blur
        } else if v == 5 {
            CompositeOperator::Bumpmap
        } else if v == 6 {
            CompositeOperator::ChangeMask
        } else if v == 7 {
            CompositeOperator::Clear
        } else if v == 8 {
            CompositeOperator::ColorBurn
        } else if v == 9 {
            CompositeOperator::ColorDodge
        } else if v == 10 {
            CompositeOperator::Colorize
        } else if v == 11 {
            CompositeOperator::CopyBlack
        } else if v == 12 {
            CompositeOperator::CopyBlue
        } else if v == 13 {
            CompositeOperator::Copy
        } else if v == 14 {
            CompositeOperator::CopyCyan
        } else if v == 15 {
            CompositeOperator::CopyGreen
        } else if v == 16 {
            CompositeOperator::CopyMagenta
        } else if v == 17 {
            CompositeOperator::CopyAlpha
        } else if v == 18 {
            CompositeOperator::CopyRed
        } else if v == 19 {
            CompositeOperator::CopyYellow
        } else if v == 20 {
            CompositeOperator::Darken
        } else if v == 21 {
            CompositeOperator::DarkenIntensity
        } else if v == 22 {
            CompositeOperator::Difference
        } else if v == 23 {
            CompositeOperator::Displace
        } else if v == 24 {
            CompositeOperator::Dissolve
        } else if v == 25 {
            CompositeOperator::Distort
        } else if v == 26 {
            CompositeOperator::DivideDst
        } else if v == 27 {
            CompositeOperator::DivideSrc
        } else if v == 28 {
            CompositeOperator::DstAtop
        } else if v == 29 {
            CompositeOperator::Dst
        } else if v == 30 {
            CompositeOperator::DstIn
        } else if v == 31 {
            CompositeOperator::DstOut
        } else if v == 32 {
            CompositeOperator::DstOver
        } else if v == 33 {
            CompositeOperator::Exclusion
        } else if v == 34 {
            CompositeOperator::HardLight
        } else if v == 35 {
            CompositeOperator::HardMix
        } else if v == 36 {
            CompositeOperator::Hue
        } else if v == 37 {
            CompositeOperator::In
        } else if v == 38 {
            CompositeOperator::Intensity
        } else if v == 39 {
            CompositeOperator::Lighten
        } else if v == 40 {
            CompositeOperator::LightenIntensity
        } else if v == 41 {
            CompositeOperator::LinearBurn
        } else if v == 42 {
            CompositeOperator::LinearDodge
        } else if v == 43 {
            CompositeOperator::LinearLight
        } else if v == 44 {
            CompositeOperator::Luminize
        } else if v == 45 {
            CompositeOperator::Mathematics
        } else if v == 46 {
            CompositeOperator::MinusDst
        } else if v == 47 {
            CompositeOperator::MinusSrc
        } else if v == 48 {
            CompositeOperator::Modulate
        } else if v == 49 {
            CompositeOperator::ModulusAdd
        } else if v == 50 {
            CompositeOperator::ModulusSubtract
        } else if v == 51 {
            CompositeOperator::Multiply
        } else if v == 52 {
            CompositeOperator::No
        } else if v == 53 {
            CompositeOperator::Out
        } else if v == 54 {
            CompositeOperator::Over
        } else if v == 55 {
            CompositeOperator::Overlay
        } else if v == 56 {
            CompositeOperator::PegtopLight
        } else if v == 57 {
            CompositeOperator::PinLight
        } else if v == 58 {
            CompositeOperator::Plus
        } else if v == 59 {
            CompositeOperator::Replace
        } else if v == 60 {
            CompositeOperator::Saturate
        } else if v == 61 {
            CompositeOperator::Screen
        } else if v == 62 {
            CompositeOperator::SoftLight
        } else if v == 63 {
            CompositeOperator::SrcAtop
        } else if v == 64 {
            CompositeOperator::Src
        } else if v == 65 {
            CompositeOperator::SrcIn
        } else if v == 66 {
            CompositeOperator::SrcOut
        } else if v == 67 {
            CompositeOperator::SrcOver
        } else if v == 68 {
            CompositeOperator::Threshold
        } else if v == 69 {
            CompositeOperator::VividLight
        } else if v == 70 {
            CompositeOperator::Xor
        } else if v == 71 {
            CompositeOperator::Stereo
        } else if v == 72 {
            CompositeOperator::Freeze
        } else if v == 73 {
            CompositeOperator::Interpolate
        } else if v == 74 {
            CompositeOperator::Negate
        } else if v == 75 {
            CompositeOperator::Reflect
        } else if v == 76 {
            CompositeOperator::SoftBurn
        } else if v == 77 {
            CompositeOperator::SoftDodge
        } else if v == 78 {
            CompositeOperator::Stamp
        } else if v == 79 {
            CompositeOperator::RMSE
        } else if v == 80 {
            CompositeOperator::SaliencyBlend
        } else if v == 81 {
            CompositeOperator::SeamlessBlend
        } else {
            CompositeOperator::Over
        }
    }

    /// Safe-to-native conversion: total and infallible.
    pub fn to_native(self) -> (r: u32)
        ensures
            r == self.as_native(),
    {
        match self {
            CompositeOperator::Undefined => 0,
            CompositeOperator::Alpha => 1,
            CompositeOperator::Atop => 2,
            CompositeOperator::Blend => 3,
            CompositeOperator::Blur => 4,
            CompositeOperator::Bumpmap => 5,
            CompositeOperator::ChangeMask => 6,
            CompositeOperator::Clear => 7,
            CompositeOperator::ColorBurn => 8,
            CompositeOperator::ColorDodge => 9,
            CompositeOperator::Colorize => 10,
            CompositeOperator::CopyBlack => 11,
            CompositeOperator::CopyBlue => 12,
            CompositeOperator::Copy => 13,
            CompositeOperator::CopyCyan => 14,
            CompositeOperator::CopyGreen => 15,
            CompositeOperator::CopyMagenta => 16,
            CompositeOperator::CopyAlpha => 17,
            CompositeOperator::CopyRed => 18,
            CompositeOperator::CopyYellow => 19,
            CompositeOperator::Darken => 20,
            CompositeOperator::DarkenIntensity => 21,
            CompositeOperator::Difference => 22,
            CompositeOperator::Displace => 23,
            CompositeOperator::Dissolve => 24,
            CompositeOperator::Distort => 25,
            CompositeOperator::DivideDst => 26,
            CompositeOperator::DivideSrc => 27,
            CompositeOperator::DstAtop => 28,
            CompositeOperator::Dst => 29,
            CompositeOperator::DstIn => 30,
            CompositeOperator::DstOut => 31,
            CompositeOperator::DstOver => 32,
            CompositeOperator::Exclusion => 33,
            CompositeOperator::HardLight => 34,
            CompositeOperator::HardMix => 35,
            CompositeOperator::Hue => 36,
            CompositeOperator::In => 37,
            CompositeOperator::Intensity => 38,
            CompositeOperator::Lighten => 39,
            CompositeOperator::LightenIntensity => 40,
            CompositeOperator::LinearBurn => 41,
            CompositeOperator::LinearDodge => 42,
            CompositeOperator::LinearLight => 43,
            CompositeOperator::Luminize => 44,
            CompositeOperator::Mathematics => 45,
            CompositeOperator::MinusDst => 46,
            CompositeOperator::MinusSrc => 47,
            CompositeOperator::Modulate => 48,
            CompositeOperator::ModulusAdd => 49,
            CompositeOperator::ModulusSubtract => 50,
            CompositeOperator::Multiply => 51,
            CompositeOperator::No => 52,
            CompositeOperator::Out => 53,
            CompositeOperator::Over => 54,
            CompositeOperator::Overlay => 55,
            CompositeOperator::PegtopLight => 56,
            CompositeOperator::PinLight => 57,
            CompositeOperator::Plus => 58,
            CompositeOperator::Replace => 59,
            CompositeOperator::Saturate => 60,
            CompositeOperator::Screen => 61,
            CompositeOperator::SoftLight => 62,
            CompositeOperator::SrcAtop => 63,
            CompositeOperator::Src => 64,
            CompositeOperator::SrcIn => 65,
            CompositeOperator::SrcOut => 66,
            CompositeOperator::SrcOver => 67,
            CompositeOperator::Threshold => 68,
            CompositeOperator::VividLight => 69,
            CompositeOperator::Xor => 70,
            CompositeOperator::Stereo => 71,
            CompositeOperator::Freeze => 72,
            CompositeOperator::Interpolate => 73,
            CompositeOperator::Negate => 74,
            CompositeOperator::Reflect => 75,
            CompositeOperator::SoftBurn => 76,
            CompositeOperator::SoftDodge => 77,
            CompositeOperator::Stamp => 78,
            CompositeOperator::RMSE => 79,
            CompositeOperator::SaliencyBlend => 80,
            CompositeOperator::SeamlessBlend => 81,
        }
    }

    /// Native-to-safe conversion: total, with the fallback described at
    /// [`CompositeOperator::of_native`] for unrecognized tags.
    pub fn from_native(v: u32) -> (r: CompositeOperator)
        ensures
            r == CompositeOperator::of_native(v),
    {
        if v == 0 {
            CompositeOperator::Undefined
        } else if v == 1 {
            CompositeOperator::Alpha
        } else if v == 2 {
            CompositeOperator::Atop
        } else if v == 3 {
            CompositeOperator::Blend
        } else if v == 4 {
            CompositeOperator::Blur
        } else if v == 5 {
            CompositeOperator::Bumpmap
        } else if v == 6 {
            CompositeOperator::ChangeMask
        } else if v == 7 {
            CompositeOperator::Clear
        } else if v == 8 {
            CompositeOperator::ColorBurn
        } else if v == 9 {
            CompositeOperator::ColorDodge
        } else if v == 10 {
            CompositeOperator::Colorize
        } else if v == 11 {
            CompositeOperator::CopyBlack
        } else if v == 12 {
            CompositeOperator::CopyBlue
        } else if v == 13 {
            CompositeOperator::Copy
        } else if v == 14 {
            CompositeOperator::CopyCyan
        } else if v == 15 {
            CompositeOperator::CopyGreen
        } else if v == 16 {
            CompositeOperator::CopyMagenta
        } else if v == 17 {
            CompositeOperator::CopyAlpha
        } else if v == 18 {
            CompositeOperator::CopyRed
        } else if v == 19 {
            CompositeOperator::CopyYellow
        } else if v == 20 {
            CompositeOperator::Darken
        } else if v == 21 {
            CompositeOperator::DarkenIntensity
        } else if v == 22 {
            CompositeOperator::Difference
        } else if v == 23 {
            CompositeOperator::Displace
        } else if v == 24 {
            CompositeOperator::Dissolve
        } else if v == 25 {
            CompositeOperator::Distort
        } else if v == 26 {
            CompositeOperator::DivideDst
        } else if v == 27 {
            CompositeOperator::DivideSrc
        } else if v == 28 {
            CompositeOperator::DstAtop
        } else if v == 29 {
            CompositeOperator::Dst
        } else if v == 30 {
            CompositeOperator::DstIn
        } else if v == 31 {
            CompositeOperator::DstOut
        } else if v == 32 {
            CompositeOperator::DstOver
        } else if v == 33 {
            CompositeOperator::Exclusion
        } else if v == 34 {
            CompositeOperator::HardLight
        } else if v == 35 {
            CompositeOperator::HardMix
        } else if v == 36 {
            CompositeOperator::Hue
        } else if v == 37 {
            CompositeOperator::In
        } else if v == 38 {
            CompositeOperator::Intensity
        } else if v == 39 {
            CompositeOperator::Lighten
        } else if v == 40 {
            CompositeOperator::LightenIntensity
        } else if v == 41 {
            CompositeOperator::LinearBurn
        } else if v == 42 {
            CompositeOperator::LinearDodge
        } else if v == 43 {
            CompositeOperator::LinearLight
        } else if v == 44 {
            CompositeOperator::Luminize
        } else if v == 45 {
            CompositeOperator::Mathematics
        } else if v == 46 {
            CompositeOperator::MinusDst
        } else if v == 47 {
            CompositeOperator::MinusSrc
        } else if v == 48 {
            CompositeOperator::Modulate
        } else if v == 49 {
            CompositeOperator::ModulusAdd
        } else if v == 50 {
            CompositeOperator::ModulusSubtract
        } else if v == 51 {
            CompositeOperator::Multiply
        } else if v == 52 {
            CompositeOperator::No
        } else if v == 53 {
            CompositeOperator::Out
        } else if v == 54 {
            CompositeOperator::Over
        } else if v == 55 {
            CompositeOperator::Overlay
        } else if v == 56 {
            CompositeOperator::PegtopLight
        } else if v == 57 {
            CompositeOperator::PinLight
        } else if v == 58 {
            CompositeOperator::Plus
        } else if v == 59 {
            CompositeOperator::Replace
        } else if v == 60 {
            CompositeOperator::Saturate
        } else if v == 61 {
            CompositeOperator::Screen
        } else if v == 62 {
            CompositeOperator::SoftLight
        } else if v == 63 {
            CompositeOperator::SrcAtop
        } else if v == 64 {
            CompositeOperator::Src
        } else if v == 65 {
            CompositeOperator::SrcIn
        } else if v == 66 {
            CompositeOperator::SrcOut
        } else if v == 67 {
            CompositeOperator::SrcOver
        } else if v == 68 {
            CompositeOperator::Threshold
        } else if v == 69 {
            CompositeOperator::VividLight
        } else if v == 70 {
            CompositeOperator::Xor
        } else if v == 71 {
            CompositeOperator::Stereo
        } else if v == 72 {
            CompositeOperator::Freeze
        } else if v == 73 {
            CompositeOperator::Interpolate
        } else if v == 74 {
            CompositeOperator::Negate
        } else if v == 75 {
            CompositeOperator::Reflect
        } else if v == 76 {
            CompositeOperator::SoftBurn
        } else if v == 77 {
            CompositeOperator::SoftDodge
        } else if v == 78 {
            CompositeOperator::Stamp
        } else if v == 79 {
            CompositeOperator::RMSE
        } else if v == 80 {
            CompositeOperator::SaliencyBlend
        } else if v == 81 {
            CompositeOperator::SeamlessBlend
        } else {
            CompositeOperator::Over
        }
    }

    /// Law: mapping a variant to its native tag and back returns the variant.
    pub proof fn lemma_native_roundtrip(self)
        ensures
            CompositeOperator::of_native(self.as_native()) == self,
    {
    }

    /// Law: every tag above the greatest defined one, not just the next,
    /// falls back to the default variant rather than failing.
    pub proof fn lemma_unknown_tag_default(v: u32)
        requires
            v > CompositeOperator::max_native(),
        ensures
            CompositeOperator::of_native(v) == CompositeOperator::Over,
    {
    }
}

impl Default for CompositeOperator {
    /// The documented default variant, also the fallback of [`CompositeOperator::of_native`].
    fn default() -> (r: Self)
        ensures
            r == CompositeOperator::Over,
    {
        CompositeOperator::Over
    }
}

} // verus!
