//! Safe, verified core of a wrapper around a native image-processing library.
//!
//! The native library hands out opaque "wand" handles whose error state,
//! lifecycle and option values are weakly typed.  This crate holds the parts
//! of the wrapper that are pure logic: the bidirectional mapping between safe
//! option enumerations and native integer tags, the decision layer that turns
//! native status codes and nullable results into typed results, the wand
//! lifecycle and exception protocol, C-string marshaling checks, and the
//! geometry arithmetic used when images are resized to fit a bounding box.
//! The raw foreign calls themselves live outside this crate; they hand plain
//! values in and take plain values back.

pub mod align_type;
pub mod alpha_channel_option;
pub mod auto_threshold_method;
pub mod channel_type;
pub mod clip_path_units;
pub mod colorspace_type;
pub mod composite_operator;
pub mod compression_type;
pub mod conversions;
pub mod cstring;
pub mod decoration_type;
pub mod direction_type;
pub mod dispose_type;
pub mod dither_method;
pub mod drawing;
pub mod endian_type;
pub mod exception;
pub mod fill_rule;
pub mod filter_type;
pub mod geometry;
pub mod gravity_type;
pub mod image;
pub mod image_type;
pub mod interlace_type;
pub mod kernel;
pub mod layer_method;
pub mod library;
pub mod line_cap;
pub mod line_join;
pub mod magick;
pub mod magick_evaluate_operator;
pub mod magick_function;
pub mod memory;
pub mod metric_type;
pub mod orientation_type;
pub mod pixel;
pub mod pixel_interpolate_method;
pub mod pixel_mask;
pub mod rendering_intent;
pub mod resolution_type;
pub mod resource_type;
pub mod result;
pub mod statistic_type;
pub mod stretch_type;
pub mod style_type;
pub mod wand_core;

pub use align_type::AlignType;
pub use alpha_channel_option::AlphaChannelOption;
pub use auto_threshold_method::AutoThresholdMethod;
pub use channel_type::ChannelType;
pub use clip_path_units::ClipPathUnits;
pub use colorspace_type::ColorspaceType;
pub use composite_operator::CompositeOperator;
pub use compression_type::CompressionType;
pub use conversions::{FromRust, ToMagick};
pub use decoration_type::DecorationType;
pub use direction_type::DirectionType;
pub use dispose_type::DisposeType;
pub use dither_method::DitherMethod;
pub use drawing::DrawingWand;
pub use endian_type::EndianType;
pub use exception::WandKind;
pub use fill_rule::FillRule;
pub use filter_type::FilterType;
pub use gravity_type::GravityType;
pub use image::Image;
pub use image_type::ImageType;
pub use interlace_type::InterlaceType;
pub use kernel::KernelInfo;
pub use layer_method::LayerMethod;
pub use line_cap::LineCap;
pub use line_join::LineJoin;
pub use magick::MagickWand;
pub use magick_evaluate_operator::MagickEvaluateOperator;
pub use magick_function::MagickFunction;
pub use metric_type::MetricType;
pub use orientation_type::OrientationType;
pub use pixel::PixelWand;
pub use pixel_interpolate_method::PixelInterpolateMethod;
pub use pixel_mask::PixelMask;
pub use rendering_intent::RenderingIntent;
pub use resolution_type::ResolutionType;
pub use resource_type::ResourceType;
pub use result::MagickError;
pub use statistic_type::StatisticType;
pub use stretch_type::StretchType;
pub use style_type::StyleType;
