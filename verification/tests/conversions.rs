//! Conversion-layer tests: every option type maps to its native tag and
//! back, and unrecognized native tags fall back to the default variant.

use magick_rust::{
    AlignType,
    AlphaChannelOption,
    AutoThresholdMethod,
    ChannelType,
    ClipPathUnits,
    ColorspaceType,
    CompositeOperator,
    CompressionType,
    DecorationType,
    DirectionType,
    DisposeType,
    DitherMethod,
    EndianType,
    FillRule,
    FilterType,
    GravityType,
    ImageType,
    InterlaceType,
    LayerMethod,
    LineCap,
    LineJoin,
    MagickEvaluateOperator,
    MagickFunction,
    MetricType,
    OrientationType,
    PixelInterpolateMethod,
    PixelMask,
    RenderingIntent,
    ResolutionType,
    ResourceType,
    StatisticType,
    StretchType,
    StyleType,
};

#[test]
fn test_align_type_native_roundtrip() {
    let variants = [
        AlignType::Undefined,
        AlignType::Left,
        AlignType::Center,
        AlignType::Right,
    ];
    for v in variants {
        assert_eq!(AlignType::from_native(v.to_native()), v);
    }
}

#[test]
fn test_align_type_unrecognized_tag_falls_back() {
    assert_eq!(AlignType::from_native(4), AlignType::Undefined);
    assert_eq!(AlignType::from_native(u32::MAX), AlignType::Undefined);
}

#[test]
fn test_align_type_default() {
    assert_eq!(AlignType::default(), AlignType::Undefined);
}

#[test]
fn test_alpha_channel_option_native_roundtrip() {
    let variants = [
        AlphaChannelOption::Undefined,
        AlphaChannelOption::Activate,
        AlphaChannelOption::Associate,
        AlphaChannelOption::Background,
        AlphaChannelOption::Copy,
        AlphaChannelOption::Deactivate,
        AlphaChannelOption::Discrete,
        AlphaChannelOption::Disassociate,
        AlphaChannelOption::Extract,
        AlphaChannelOption::Off,
        AlphaChannelOption::On,
        AlphaChannelOption::Opaque,
        AlphaChannelOption::Remove,
        AlphaChannelOption::SetAlpha,
        AlphaChannelOption::Shape,
        AlphaChannelOption::Transparent,
        AlphaChannelOption::OffIfOpaque,
    ];
    for v in variants {
        assert_eq!(AlphaChannelOption::from_native(v.to_native()), v);
    }
}

#[test]
fn test_alpha_channel_option_unrecognized_tag_falls_back() {
    assert_eq!(AlphaChannelOption::from_native(17), AlphaChannelOption::Undefined);
    assert_eq!(AlphaChannelOption::from_native(u32::MAX), AlphaChannelOption::Undefined);
}

#[test]
fn test_alpha_channel_option_default() {
    assert_eq!(AlphaChannelOption::default(), AlphaChannelOption::Undefined);
}

#[test]
fn test_auto_threshold_method_native_roundtrip() {
    let variants = [
        AutoThresholdMethod::Undefined,
        AutoThresholdMethod::Kapur,
        AutoThresholdMethod::OTSU,
        AutoThresholdMethod::Triangle,
    ];
    for v in variants {
        assert_eq!(AutoThresholdMethod::from_native(v.to_native()), v);
    }
}

#[test]
fn test_auto_threshold_method_unrecognized_tag_falls_back() {
    assert_eq!(AutoThresholdMethod::from_native(4), AutoThresholdMethod::Undefined);
    assert_eq!(AutoThresholdMethod::from_native(u32::MAX), AutoThresholdMethod::Undefined);
}

#[test]
fn test_auto_threshold_method_default() {
    assert_eq!(AutoThresholdMethod::default(), AutoThresholdMethod::Undefined);
}

#[test]
fn test_channel_type_native_roundtrip() {
    let variants = [
        ChannelType::Undefined,
        ChannelType::RedChannel,
        ChannelType::GrayChannel,
        ChannelType::CyanChannel,
        ChannelType::LChannel,
        ChannelType::GreenChannel,
        ChannelType::MagentaChannel,
        ChannelType::aChannel,
        ChannelType::BlueChannel,
        ChannelType::bChannel,
        ChannelType::YellowChannel,
        ChannelType::BlackChannel,
        ChannelType::AlphaChannel,
        ChannelType::OpacityChannel,
        ChannelType::IndexChannel,
        ChannelType::ReadMaskChannel,
        ChannelType::WriteMaskChannel,
        ChannelType::MetaChannel,
        ChannelType::CompositeMaskChannel,
        ChannelType::CompositeChannels,
        ChannelType::AllChannels,
        ChannelType::TrueAlphaChannel,
        ChannelType::RGBChannels,
        ChannelType::GrayChannels,
        ChannelType::SyncChannels,
        ChannelType::DefaultChannels,
    ];
    // variants that share a native mask come back as the mask's first owner,
    // carrying the same mask; owners come back as themselves
    for v in variants {
        let back = ChannelType::from_native(v.to_native());
        assert_eq!(back.to_native(), v.to_native());
    }
    assert_eq!(ChannelType::from_native(ChannelType::RedChannel.to_native()), ChannelType::RedChannel);
    assert_eq!(ChannelType::from_native(ChannelType::CyanChannel.to_native()), ChannelType::RedChannel);
}

#[test]
fn test_channel_type_unrecognized_tag_falls_back() {
    assert_eq!(ChannelType::from_native(0x12345), ChannelType::Undefined);
    assert_eq!(ChannelType::from_native(u32::MAX), ChannelType::Undefined);
}

#[test]
fn test_channel_type_default() {
    assert_eq!(ChannelType::default(), ChannelType::DefaultChannels);
}

#[test]
fn test_clip_path_units_native_roundtrip() {
    let variants = [
        ClipPathUnits::Undefined,
        ClipPathUnits::UserSpace,
        ClipPathUnits::UserSpaceOnUse,
        ClipPathUnits::ObjectBoundingBox,
    ];
    for v in variants {
        assert_eq!(ClipPathUnits::from_native(v.to_native()), v);
    }
}

#[test]
fn test_clip_path_units_unrecognized_tag_falls_back() {
    assert_eq!(ClipPathUnits::from_native(4), ClipPathUnits::Undefined);
    assert_eq!(ClipPathUnits::from_native(u32::MAX), ClipPathUnits::Undefined);
}

#[test]
fn test_clip_path_units_default() {
    assert_eq!(ClipPathUnits::default(), ClipPathUnits::Undefined);
}

#[test]
fn test_colorspace_type_native_roundtrip() {
    let variants = [
        ColorspaceType::Undefined,
        ColorspaceType::CMY,
        ColorspaceType::CMYK,
        ColorspaceType::GRAY,
        ColorspaceType::HCL,
        ColorspaceType::HCLp,
        ColorspaceType::HSB,
        ColorspaceType::HSI,
        ColorspaceType::HSL,
        ColorspaceType::HSV,
        ColorspaceType::HWB,
        ColorspaceType::Lab,
        ColorspaceType::LCH,
        ColorspaceType::LCHab,
        ColorspaceType::LCHuv,
        ColorspaceType::Log,
        ColorspaceType::LMS,
        ColorspaceType::Luv,
        ColorspaceType::OHTA,
        ColorspaceType::Rec601YCbCr,
        ColorspaceType::Rec709YCbCr,
        ColorspaceType::RGB,
        ColorspaceType::scRGB,
        ColorspaceType::sRGB,
        ColorspaceType::Transparent,
        ColorspaceType::xyY,
        ColorspaceType::XYZ,
        ColorspaceType::YCbCr,
        ColorspaceType::YCC,
        ColorspaceType::YDbDr,
        ColorspaceType::YIQ,
        ColorspaceType::YPbPr,
        ColorspaceType::YUV,
        ColorspaceType::LinearGRAY,
        ColorspaceType::Jzazbz,
        ColorspaceType::DisplayP3,
        ColorspaceType::Adobe98,
        ColorspaceType::ProPhoto,
        ColorspaceType::Oklab,
        ColorspaceType::Oklch,
    ];
    for v in variants {
        assert_eq!(ColorspaceType::from_native(v.to_native()), v);
    }
}

#[test]
fn test_colorspace_type_unrecognized_tag_falls_back() {
    assert_eq!(ColorspaceType::from_native(40), ColorspaceType::RGB);
    assert_eq!(ColorspaceType::from_native(u32::MAX), ColorspaceType::RGB);
}

#[test]
fn test_colorspace_type_default() {
    assert_eq!(ColorspaceType::default(), ColorspaceType::RGB);
}

#[test]
fn test_composite_operator_native_roundtrip() {
    let variants = [
        CompositeOperator::Undefined,
        CompositeOperator::Alpha,
        CompositeOperator::Atop,
        CompositeOperator::Blend,
        CompositeOperator::Blur,
        CompositeOperator::Bumpmap,
        CompositeOperator::ChangeMask,
        CompositeOperator::Clear,
        CompositeOperator::ColorBurn,
        CompositeOperator::ColorDodge,
        CompositeOperator::Colorize,
        CompositeOperator::CopyBlack,
        CompositeOperator::CopyBlue,
        CompositeOperator::Copy,
        CompositeOperator::CopyCyan,
        CompositeOperator::CopyGreen,
        CompositeOperator::CopyMagenta,
        CompositeOperator::CopyAlpha,
        CompositeOperator::CopyRed,
        CompositeOperator::CopyYellow,
        CompositeOperator::Darken,
        CompositeOperator::DarkenIntensity,
        CompositeOperator::Difference,
        CompositeOperator::Displace,
        CompositeOperator::Dissolve,
        CompositeOperator::Distort,
        CompositeOperator::DivideDst,
        CompositeOperator::DivideSrc,
        CompositeOperator::DstAtop,
        CompositeOperator::Dst,
        CompositeOperator::DstIn,
        CompositeOperator::DstOut,
        CompositeOperator::DstOver,
        CompositeOperator::Exclusion,
        CompositeOperator::HardLight,
        CompositeOperator::HardMix,
        CompositeOperator::Hue,
        CompositeOperator::In,
        CompositeOperator::Intensity,
        CompositeOperator::Lighten,
        CompositeOperator::LightenIntensity,
        CompositeOperator::LinearBurn,
        CompositeOperator::LinearDodge,
        CompositeOperator::LinearLight,
        CompositeOperator::Luminize,
        CompositeOperator::Mathematics,
        CompositeOperator::MinusDst,
        CompositeOperator::MinusSrc,
        CompositeOperator::Modulate,
        CompositeOperator::ModulusAdd,
        CompositeOperator::ModulusSubtract,
        CompositeOperator::Multiply,
        CompositeOperator::No,
        CompositeOperator::Out,
        CompositeOperator::Over,
        CompositeOperator::Overlay,
        CompositeOperator::PegtopLight,
        CompositeOperator::PinLight,
        CompositeOperator::Plus,
        CompositeOperator::Replace,
        CompositeOperator::Saturate,
        CompositeOperator::Screen,
        CompositeOperator::SoftLight,
        CompositeOperator::SrcAtop,
        CompositeOperator::Src,
        CompositeOperator::SrcIn,
        CompositeOperator::SrcOut,
        CompositeOperator::SrcOver,
        CompositeOperator::Threshold,
        CompositeOperator::VividLight,
        CompositeOperator::Xor,
        CompositeOperator::Stereo,
        CompositeOperator::Freeze,
        CompositeOperator::Interpolate,
        CompositeOperator::Negate,
        CompositeOperator::Reflect,
        CompositeOperator::SoftBurn,
        CompositeOperator::SoftDodge,
        CompositeOperator::Stamp,
        CompositeOperator::RMSE,
        CompositeOperator::SaliencyBlend,
        CompositeOperator::SeamlessBlend,
    ];
    for v in variants {
        assert_eq!(CompositeOperator::from_native(v.to_native()), v);
    }
}

#[test]
fn test_composite_operator_unrecognized_tag_falls_back() {
    assert_eq!(CompositeOperator::from_native(82), CompositeOperator::Over);
    assert_eq!(CompositeOperator::from_native(u32::MAX), CompositeOperator::Over);
}

#[test]
fn test_composite_operator_default() {
    assert_eq!(CompositeOperator::default(), CompositeOperator::Over);
}

#[test]
fn test_compression_type_native_roundtrip() {
    let variants = [
        CompressionType::Undefined,
        CompressionType::B44A,
        CompressionType::B44,
        CompressionType::BZip,
        CompressionType::DXT1,
        CompressionType::DXT3,
        CompressionType::DXT5,
        CompressionType::Fax,
        CompressionType::Group4,
        CompressionType::JBIG1,
        CompressionType::JBIG2,
        CompressionType::JPEG2000,
        CompressionType::JPEG,
        CompressionType::LosslessJPEG,
        CompressionType::LZMA,
        CompressionType::LZW,
        CompressionType::No,
        CompressionType::Piz,
        CompressionType::Pxr24,
        CompressionType::RLE,
        CompressionType::Zip,
        CompressionType::ZipS,
        CompressionType::Zstd,
        CompressionType::WebP,
        CompressionType::DWAA,
        CompressionType::DWAB,
        CompressionType::BC7,
        CompressionType::BC5,
        CompressionType::LERC,
    ];
    for v in variants {
        assert_eq!(CompressionType::from_native(v.to_native()), v);
    }
}

#[test]
fn test_compression_type_unrecognized_tag_falls_back() {
    assert_eq!(CompressionType::from_native(29), CompressionType::Undefined);
    assert_eq!(CompressionType::from_native(u32::MAX), CompressionType::Undefined);
}

#[test]
fn test_compression_type_default() {
    assert_eq!(CompressionType::default(), CompressionType::Undefined);
}

#[test]
fn test_decoration_type_native_roundtrip() {
    let variants = [
        DecorationType::Undefined,
        DecorationType::No,
        DecorationType::Underline,
        DecorationType::Overline,
        DecorationType::LineThrough,
    ];
    for v in variants {
        assert_eq!(DecorationType::from_native(v.to_native()), v);
    }
}

#[test]
fn test_decoration_type_unrecognized_tag_falls_back() {
    assert_eq!(DecorationType::from_native(5), DecorationType::Undefined);
    assert_eq!(DecorationType::from_native(u32::MAX), DecorationType::Undefined);
}

#[test]
fn test_decoration_type_default() {
    assert_eq!(DecorationType::default(), DecorationType::Undefined);
}

#[test]
fn test_direction_type_native_roundtrip() {
    let variants = [
        DirectionType::Undefined,
        DirectionType::RightToLeft,
        DirectionType::LeftToRight,
        DirectionType::TopToBottom,
    ];
    for v in variants {
        assert_eq!(DirectionType::from_native(v.to_native()), v);
    }
}

#[test]
fn test_direction_type_unrecognized_tag_falls_back() {
    assert_eq!(DirectionType::from_native(4), DirectionType::Undefined);
    assert_eq!(DirectionType::from_native(u32::MAX), DirectionType::Undefined);
}

#[test]
fn test_direction_type_default() {
    assert_eq!(DirectionType::default(), DirectionType::Undefined);
}

#[test]
fn test_dispose_type_native_roundtrip() {
    let variants = [
        DisposeType::Undefined,
        DisposeType::NoneDispose,
        DisposeType::Background,
        DisposeType::Previous,
    ];
    for v in variants {
        assert_eq!(DisposeType::from_native(v.to_native()), v);
    }
}

#[test]
fn test_dispose_type_unrecognized_tag_falls_back() {
    assert_eq!(DisposeType::from_native(4), DisposeType::Undefined);
    assert_eq!(DisposeType::from_native(u32::MAX), DisposeType::Undefined);
}

#[test]
fn test_dispose_type_default() {
    assert_eq!(DisposeType::default(), DisposeType::Undefined);
}

#[test]
fn test_dither_method_native_roundtrip() {
    let variants = [
        DitherMethod::Undefined,
        DitherMethod::No,
        DitherMethod::Riemersma,
        DitherMethod::FloydSteinberg,
    ];
    for v in variants {
        assert_eq!(DitherMethod::from_native(v.to_native()), v);
    }
}

#[test]
fn test_dither_method_unrecognized_tag_falls_back() {
    assert_eq!(DitherMethod::from_native(4), DitherMethod::No);
    assert_eq!(DitherMethod::from_native(u32::MAX), DitherMethod::No);
}

#[test]
fn test_dither_method_default() {
    assert_eq!(DitherMethod::default(), DitherMethod::No);
}

#[test]
fn test_endian_type_native_roundtrip() {
    let variants = [
        EndianType::Undefined,
        EndianType::LSB,
        EndianType::MSB,
    ];
    for v in variants {
        assert_eq!(EndianType::from_native(v.to_native()), v);
    }
}

#[test]
fn test_endian_type_unrecognized_tag_falls_back() {
    assert_eq!(EndianType::from_native(3), EndianType::Undefined);
    assert_eq!(EndianType::from_native(u32::MAX), EndianType::Undefined);
}

#[test]
fn test_endian_type_default() {
    assert_eq!(EndianType::default(), EndianType::Undefined);
}

#[test]
fn test_fill_rule_native_roundtrip() {
    let variants = [
        FillRule::Undefined,
        FillRule::EvenOdd,
        FillRule::NonZero,
    ];
    for v in variants {
        assert_eq!(FillRule::from_native(v.to_native()), v);
    }
}

#[test]
fn test_fill_rule_unrecognized_tag_falls_back() {
    assert_eq!(FillRule::from_native(3), FillRule::Undefined);
    assert_eq!(FillRule::from_native(u32::MAX), FillRule::Undefined);
}

#[test]
fn test_fill_rule_default() {
    assert_eq!(FillRule::default(), FillRule::Undefined);
}

#[test]
fn test_filter_type_native_roundtrip() {
    let variants = [
        FilterType::Undefined,
        FilterType::Point,
        FilterType::Box,
        FilterType::Triangle,
        FilterType::Hermite,
        FilterType::Hann,
        FilterType::Hamming,
        FilterType::Blackman,
        FilterType::Gaussian,
        FilterType::Quadratic,
        FilterType::Cubic,
        FilterType::Catrom,
        FilterType::Mitchell,
        FilterType::Jinc,
        FilterType::Sinc,
        FilterType::SincFast,
        FilterType::Kaiser,
        FilterType::Welch,
        FilterType::Parzen,
        FilterType::Bohman,
        FilterType::Bartlett,
        FilterType::Lagrange,
        FilterType::Lanczos,
        FilterType::LanczosSharp,
        FilterType::Lanczos2,
        FilterType::Lanczos2Sharp,
        FilterType::Robidoux,
        FilterType::RobidouxSharp,
        FilterType::Cosine,
        FilterType::Spline,
        FilterType::LanczosRadius,
        FilterType::CubicSpline,
        FilterType::Sentinel,
    ];
    for v in variants {
        assert_eq!(FilterType::from_native(v.to_native()), v);
    }
}

#[test]
fn test_filter_type_unrecognized_tag_falls_back() {
    assert_eq!(FilterType::from_native(33), FilterType::Undefined);
    assert_eq!(FilterType::from_native(u32::MAX), FilterType::Undefined);
}

#[test]
fn test_gravity_type_native_roundtrip() {
    let variants = [
        GravityType::Undefined,
        GravityType::NorthWest,
        GravityType::North,
        GravityType::NorthEast,
        GravityType::West,
        GravityType::Center,
        GravityType::East,
        GravityType::SouthWest,
        GravityType::South,
        GravityType::SouthEast,
    ];
    for v in variants {
        assert_eq!(GravityType::from_native(v.to_native()), v);
    }
}

#[test]
fn test_gravity_type_unrecognized_tag_falls_back() {
    assert_eq!(GravityType::from_native(10), GravityType::Undefined);
    assert_eq!(GravityType::from_native(u32::MAX), GravityType::Undefined);
}

#[test]
fn test_gravity_type_default() {
    assert_eq!(GravityType::default(), GravityType::Undefined);
}

#[test]
fn test_image_type_native_roundtrip() {
    let variants = [
        ImageType::Undefined,
        ImageType::Bilevel,
        ImageType::Grayscale,
        ImageType::GrayscaleAlpha,
        ImageType::Palette,
        ImageType::PaletteAlpha,
        ImageType::TrueColor,
        ImageType::TrueColorAlpha,
        ImageType::ColorSeparation,
        ImageType::ColorSeparationAlpha,
        ImageType::Optimize,
        ImageType::PaletteBilevelAlpha,
    ];
    for v in variants {
        assert_eq!(ImageType::from_native(v.to_native()), v);
    }
}

#[test]
fn test_image_type_unrecognized_tag_falls_back() {
    assert_eq!(ImageType::from_native(12), ImageType::Undefined);
    assert_eq!(ImageType::from_native(u32::MAX), ImageType::Undefined);
}

#[test]
fn test_image_type_default() {
    assert_eq!(ImageType::default(), ImageType::Undefined);
}

#[test]
fn test_interlace_type_native_roundtrip() {
    let variants = [
        InterlaceType::Undefined,
        InterlaceType::No,
        InterlaceType::Line,
        InterlaceType::Plane,
        InterlaceType::Partition,
        InterlaceType::GIF,
        InterlaceType::JPEG,
        InterlaceType::PNG,
    ];
    for v in variants {
        assert_eq!(InterlaceType::from_native(v.to_native()), v);
    }
}

#[test]
fn test_interlace_type_unrecognized_tag_falls_back() {
    assert_eq!(InterlaceType::from_native(8), InterlaceType::Undefined);
    assert_eq!(InterlaceType::from_native(u32::MAX), InterlaceType::Undefined);
}

#[test]
fn test_interlace_type_default() {
    assert_eq!(InterlaceType::default(), InterlaceType::Undefined);
}

#[test]
fn test_layer_method_native_roundtrip() {
    let variants = [
        LayerMethod::Undefined,
        LayerMethod::Coalesce,
        LayerMethod::CompareAny,
        LayerMethod::CompareClear,
        LayerMethod::CompareOverlay,
        LayerMethod::Dispose,
        LayerMethod::Optimize,
        LayerMethod::OptimizeImage,
        LayerMethod::OptimizePlus,
        LayerMethod::OptimizeTrans,
        LayerMethod::RemoveDups,
        LayerMethod::RemoveZero,
        LayerMethod::Composite,
        LayerMethod::Merge,
        LayerMethod::Flatten,
        LayerMethod::Mosaic,
        LayerMethod::TrimBounds,
    ];
    for v in variants {
        assert_eq!(LayerMethod::from_native(v.to_native()), v);
    }
}

#[test]
fn test_layer_method_unrecognized_tag_falls_back() {
    assert_eq!(LayerMethod::from_native(17), LayerMethod::Undefined);
    assert_eq!(LayerMethod::from_native(u32::MAX), LayerMethod::Undefined);
}

#[test]
fn test_layer_method_default() {
    assert_eq!(LayerMethod::default(), LayerMethod::Undefined);
}

#[test]
fn test_line_cap_native_roundtrip() {
    let variants = [
        LineCap::Undefined,
        LineCap::Butt,
        LineCap::Round,
        LineCap::Square,
    ];
    for v in variants {
        assert_eq!(LineCap::from_native(v.to_native()), v);
    }
}

#[test]
fn test_line_cap_unrecognized_tag_falls_back() {
    assert_eq!(LineCap::from_native(4), LineCap::Undefined);
    assert_eq!(LineCap::from_native(u32::MAX), LineCap::Undefined);
}

#[test]
fn test_line_cap_default() {
    assert_eq!(LineCap::default(), LineCap::Undefined);
}

#[test]
fn test_line_join_native_roundtrip() {
    let variants = [
        LineJoin::Undefined,
        LineJoin::Miter,
        LineJoin::Round,
        LineJoin::Bevel,
    ];
    for v in variants {
        assert_eq!(LineJoin::from_native(v.to_native()), v);
    }
}

#[test]
fn test_line_join_unrecognized_tag_falls_back() {
    assert_eq!(LineJoin::from_native(4), LineJoin::Undefined);
    assert_eq!(LineJoin::from_native(u32::MAX), LineJoin::Undefined);
}

#[test]
fn test_line_join_default() {
    assert_eq!(LineJoin::default(), LineJoin::Undefined);
}

#[test]
fn test_magick_evaluate_operator_native_roundtrip() {
    let variants = [
        MagickEvaluateOperator::Undefined,
        MagickEvaluateOperator::Abs,
        MagickEvaluateOperator::Add,
        MagickEvaluateOperator::AddModulus,
        MagickEvaluateOperator::And,
        MagickEvaluateOperator::Cosine,
        MagickEvaluateOperator::Divide,
        MagickEvaluateOperator::Exponential,
        MagickEvaluateOperator::GaussianNoise,
        MagickEvaluateOperator::ImpulseNoise,
        MagickEvaluateOperator::LaplacianNoise,
        MagickEvaluateOperator::LeftShift,
        MagickEvaluateOperator::Log,
        MagickEvaluateOperator::Max,
        MagickEvaluateOperator::Mean,
        MagickEvaluateOperator::Median,
        MagickEvaluateOperator::Min,
        MagickEvaluateOperator::MultiplicativeNoise,
        MagickEvaluateOperator::Multiply,
        MagickEvaluateOperator::Or,
        MagickEvaluateOperator::PoissonNoise,
        MagickEvaluateOperator::Pow,
        MagickEvaluateOperator::RightShift,
        MagickEvaluateOperator::RootMeanSquare,
        MagickEvaluateOperator::SetValue,
        MagickEvaluateOperator::Sine,
        MagickEvaluateOperator::Subtract,
        MagickEvaluateOperator::Sum,
        MagickEvaluateOperator::ThresholdBlack,
        MagickEvaluateOperator::Threshold,
        MagickEvaluateOperator::ThresholdWhite,
        MagickEvaluateOperator::UniformNoise,
        MagickEvaluateOperator::Xor,
        MagickEvaluateOperator::InverseLog,
    ];
    for v in variants {
        assert_eq!(MagickEvaluateOperator::from_native(v.to_native()), v);
    }
}

#[test]
fn test_magick_evaluate_operator_unrecognized_tag_falls_back() {
    assert_eq!(MagickEvaluateOperator::from_native(34), MagickEvaluateOperator::Undefined);
    assert_eq!(MagickEvaluateOperator::from_native(u32::MAX), MagickEvaluateOperator::Undefined);
}

#[test]
fn test_magick_evaluate_operator_default() {
    assert_eq!(MagickEvaluateOperator::default(), MagickEvaluateOperator::Undefined);
}

#[test]
fn test_magick_function_native_roundtrip() {
    let variants = [
        MagickFunction::Undefined,
        MagickFunction::Arcsin,
        MagickFunction::Arctan,
        MagickFunction::Polynomial,
        MagickFunction::Sinusoid,
    ];
    for v in variants {
        assert_eq!(MagickFunction::from_native(v.to_native()), v);
    }
}

#[test]
fn test_magick_function_unrecognized_tag_falls_back() {
    assert_eq!(MagickFunction::from_native(5), MagickFunction::Undefined);
    assert_eq!(MagickFunction::from_native(u32::MAX), MagickFunction::Undefined);
}

#[test]
fn test_magick_function_default() {
    assert_eq!(MagickFunction::default(), MagickFunction::Undefined);
}

#[test]
fn test_metric_type_native_roundtrip() {
    let variants = [
        MetricType::Undefined,
        MetricType::Absolute,
        MetricType::Fuzz,
        MetricType::MeanAbsolute,
        MetricType::MeanErrorPerPixel,
        MetricType::MeanSquared,
        MetricType::NormalizedCrossCorrelation,
        MetricType::PeakAbsolute,
        MetricType::PeakSignalToNoiseRatio,
        MetricType::PerceptualHash,
        MetricType::RootMeanSquared,
        MetricType::StructuralSimilarity,
        MetricType::StructuralDissimilarity,
    ];
    for v in variants {
        assert_eq!(MetricType::from_native(v.to_native()), v);
    }
}

#[test]
fn test_metric_type_unrecognized_tag_falls_back() {
    assert_eq!(MetricType::from_native(13), MetricType::Absolute);
    assert_eq!(MetricType::from_native(u32::MAX), MetricType::Absolute);
}

#[test]
fn test_metric_type_default() {
    assert_eq!(MetricType::default(), MetricType::Absolute);
}

#[test]
fn test_orientation_type_native_roundtrip() {
    let variants = [
        OrientationType::Undefined,
        OrientationType::TopLeft,
        OrientationType::TopRight,
        OrientationType::BottomRight,
        OrientationType::BottomLeft,
        OrientationType::LeftTop,
        OrientationType::RightTop,
        OrientationType::RightBottom,
        OrientationType::LeftBottom,
    ];
    for v in variants {
        assert_eq!(OrientationType::from_native(v.to_native()), v);
    }
}

#[test]
fn test_orientation_type_unrecognized_tag_falls_back() {
    assert_eq!(OrientationType::from_native(9), OrientationType::Undefined);
    assert_eq!(OrientationType::from_native(u32::MAX), OrientationType::Undefined);
}

#[test]
fn test_orientation_type_default() {
    assert_eq!(OrientationType::default(), OrientationType::Undefined);
}

#[test]
fn test_pixel_interpolate_method_native_roundtrip() {
    let variants = [
        PixelInterpolateMethod::Undefined,
        PixelInterpolateMethod::Average,
        PixelInterpolateMethod::Average9,
        PixelInterpolateMethod::Average16,
        PixelInterpolateMethod::Background,
        PixelInterpolateMethod::Bilinear,
        PixelInterpolateMethod::Blend,
        PixelInterpolateMethod::Catrom,
        PixelInterpolateMethod::Integer,
        PixelInterpolateMethod::Mesh,
        PixelInterpolateMethod::Nearest,
        PixelInterpolateMethod::Spline,
    ];
    for v in variants {
        assert_eq!(PixelInterpolateMethod::from_native(v.to_native()), v);
    }
}

#[test]
fn test_pixel_interpolate_method_unrecognized_tag_falls_back() {
    assert_eq!(PixelInterpolateMethod::from_native(12), PixelInterpolateMethod::Undefined);
    assert_eq!(PixelInterpolateMethod::from_native(u32::MAX), PixelInterpolateMethod::Undefined);
}

#[test]
fn test_pixel_interpolate_method_default() {
    assert_eq!(PixelInterpolateMethod::default(), PixelInterpolateMethod::Undefined);
}

#[test]
fn test_pixel_mask_native_roundtrip() {
    let variants = [
        PixelMask::Undefined,
        PixelMask::Read,
        PixelMask::Write,
        PixelMask::Composite,
    ];
    for v in variants {
        assert_eq!(PixelMask::from_native(v.to_native()), v);
    }
}

#[test]
fn test_pixel_mask_unrecognized_tag_falls_back() {
    assert_eq!(PixelMask::from_native(5), PixelMask::Undefined);
    assert_eq!(PixelMask::from_native(u32::MAX), PixelMask::Undefined);
}

#[test]
fn test_pixel_mask_default() {
    assert_eq!(PixelMask::default(), PixelMask::Undefined);
}

#[test]
fn test_rendering_intent_native_roundtrip() {
    let variants = [
        RenderingIntent::Undefined,
        RenderingIntent::Saturation,
        RenderingIntent::Perceptual,
        RenderingIntent::Absolute,
        RenderingIntent::Relative,
    ];
    for v in variants {
        assert_eq!(RenderingIntent::from_native(v.to_native()), v);
    }
}

#[test]
fn test_rendering_intent_unrecognized_tag_falls_back() {
    assert_eq!(RenderingIntent::from_native(5), RenderingIntent::Undefined);
    assert_eq!(RenderingIntent::from_native(u32::MAX), RenderingIntent::Undefined);
}

#[test]
fn test_rendering_intent_default() {
    assert_eq!(RenderingIntent::default(), RenderingIntent::Undefined);
}

#[test]
fn test_resolution_type_native_roundtrip() {
    let variants = [
        ResolutionType::Undefined,
        ResolutionType::PixelsPerInch,
        ResolutionType::PixelsPerCentimeter,
    ];
    for v in variants {
        assert_eq!(ResolutionType::from_native(v.to_native()), v);
    }
}

#[test]
fn test_resolution_type_unrecognized_tag_falls_back() {
    assert_eq!(ResolutionType::from_native(3), ResolutionType::Undefined);
    assert_eq!(ResolutionType::from_native(u32::MAX), ResolutionType::Undefined);
}

#[test]
fn test_resolution_type_default() {
    assert_eq!(ResolutionType::default(), ResolutionType::Undefined);
}

#[test]
fn test_resource_type_native_roundtrip() {
    let variants = [
        ResourceType::Undefined,
        ResourceType::Area,
        ResourceType::Disk,
        ResourceType::File,
        ResourceType::Height,
        ResourceType::MappedMemory,
        ResourceType::Memory,
        ResourceType::Thread,
        ResourceType::Throttle,
        ResourceType::Time,
        ResourceType::Width,
        ResourceType::ListLength,
    ];
    for v in variants {
        assert_eq!(ResourceType::from_native(v.to_native()), v);
    }
}

#[test]
fn test_resource_type_unrecognized_tag_falls_back() {
    assert_eq!(ResourceType::from_native(12), ResourceType::Undefined);
    assert_eq!(ResourceType::from_native(u32::MAX), ResourceType::Undefined);
}

#[test]
fn test_statistic_type_native_roundtrip() {
    let variants = [
        StatisticType::Undefined,
        StatisticType::Gradient,
        StatisticType::Maximum,
        StatisticType::Mean,
        StatisticType::Median,
        StatisticType::Minimum,
        StatisticType::Mode,
        StatisticType::Nonpeak,
        StatisticType::RootMeanSquare,
        StatisticType::StandardDeviation,
        StatisticType::Contrast,
    ];
    for v in variants {
        assert_eq!(StatisticType::from_native(v.to_native()), v);
    }
}

#[test]
fn test_statistic_type_unrecognized_tag_falls_back() {
    assert_eq!(StatisticType::from_native(11), StatisticType::Undefined);
    assert_eq!(StatisticType::from_native(u32::MAX), StatisticType::Undefined);
}

#[test]
fn test_statistic_type_default() {
    assert_eq!(StatisticType::default(), StatisticType::Undefined);
}

#[test]
fn test_stretch_type_native_roundtrip() {
    let variants = [
        StretchType::Undefined,
        StretchType::Normal,
        StretchType::UltraCondensed,
        StretchType::ExtraCondensed,
        StretchType::Condensed,
        StretchType::SemiCondensed,
        StretchType::SemiExpanded,
        StretchType::Expanded,
        StretchType::ExtraExpanded,
        StretchType::UltraExpanded,
        StretchType::Any,
    ];
    for v in variants {
        assert_eq!(StretchType::from_native(v.to_native()), v);
    }
}

#[test]
fn test_stretch_type_unrecognized_tag_falls_back() {
    assert_eq!(StretchType::from_native(11), StretchType::Undefined);
    assert_eq!(StretchType::from_native(u32::MAX), StretchType::Undefined);
}

#[test]
fn test_stretch_type_default() {
    assert_eq!(StretchType::default(), StretchType::Undefined);
}

#[test]
fn test_style_type_native_roundtrip() {
    let variants = [
        StyleType::Undefined,
        StyleType::Normal,
        StyleType::Italic,
        StyleType::Oblique,
        StyleType::Any,
        StyleType::Bold,
    ];
    for v in variants {
        assert_eq!(StyleType::from_native(v.to_native()), v);
    }
}

#[test]
fn test_style_type_unrecognized_tag_falls_back() {
    assert_eq!(StyleType::from_native(6), StyleType::Undefined);
    assert_eq!(StyleType::from_native(u32::MAX), StyleType::Undefined);
}

#[test]
fn test_style_type_default() {
    assert_eq!(StyleType::default(), StyleType::Undefined);
}

#[test]
fn test_known_native_tags() {
    // spot values of the consecutive numbering, one per area of the API
    assert_eq!(FilterType::Lanczos.to_native(), 22);
    assert_eq!(FilterType::Sentinel.to_native(), 32);
    assert_eq!(CompositeOperator::Over.to_native(), 54);
    assert_eq!(OrientationType::TopLeft.to_native(), 1);
    assert_eq!(StatisticType::Median.to_native(), 4);
    assert_eq!(ColorspaceType::sRGB.to_native(), 23);
    assert_eq!(GravityType::SouthEast.to_native(), 9);
    // and of the bit-mask channels
    assert_eq!(ChannelType::AlphaChannel.to_native(), 0x10);
    assert_eq!(ChannelType::DefaultChannels.to_native(), 0x7ffffff);
    assert_eq!(PixelMask::Composite.to_native(), 4);
}
