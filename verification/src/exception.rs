//! The kinds of wand the native library hands out, and the wrapper-side
//! error messages that name them.
//!
//! Three wand kinds share one lifecycle and exception protocol; only the
//! kind's name in an error message tells them apart.

use crate::result::MagickError;
use vstd::prelude::*;

verus! {

/// The kind of native wand behind a handle: an image-processing context, a
/// drawing context, or a single-pixel-color context.
#[derive(Clone, Copy, Debug, PartialEq, Eq, Structural)]
pub enum WandKind {
    Magick,
    Drawing,
    Pixel,
}

impl WandKind {
    /// The message reported when the native call clearing this kind's
    /// exception state itself reports failure.
    pub open spec fn clear_failed_msg(self) -> Seq<char> {
        match self {
            WandKind::Magick => "failed to clearMagickWandexception"@,
            WandKind::Drawing => "failed to clearDrawingWandexception"@,
            WandKind::Pixel => "failed to clearPixelWandexception"@,
        }
    }

    /// Builds the error of [`WandKind::clear_failed_msg`].
    pub fn clear_failed_error(self) -> (r: MagickError)
        ensures
            r.msg() == self.clear_failed_msg(),
    {
        match self {
            WandKind::Magick => MagickError::from_str("failed to clearMagickWandexception"),
            WandKind::Drawing => MagickError::from_str("failed to clearDrawingWandexception"),
            WandKind::Pixel => MagickError::from_str("failed to clearPixelWandexception"),
        }
    }

    /// The message reported when the native library hands back no buffer for
    /// this kind's exception message.
    pub open spec fn null_exception_msg(self) -> Seq<char> {
        match self {
            WandKind::Magick => "null ptr returned byMagickWandget_exception"@,
            WandKind::Drawing => "null ptr returned byDrawingWandget_exception"@,
            WandKind::Pixel => "null ptr returned byPixelWandget_exception"@,
        }
    }

    /// Builds the error of [`WandKind::null_exception_msg`].
    pub fn null_exception_error(self) -> (r: MagickError)
        ensures
            r.msg() == self.null_exception_msg(),
    {
        match self {
            WandKind::Magick => MagickError::from_str("null ptr returned byMagickWandget_exception"),
            WandKind::Drawing => MagickError::from_str(
                "null ptr returned byDrawingWandget_exception",
            ),
            WandKind::Pixel => MagickError::from_str("null ptr returned byPixelWandget_exception"),
        }
    }

    /// The message reported when the native library says a handle is not a
    /// well-formed wand of this kind.
    pub open spec fn not_a_wand_msg(self) -> Seq<char> {
        match self {
            WandKind::Magick => "MagickWand not a wand"@,
            WandKind::Drawing => "DrawingWand not a wand"@,
            WandKind::Pixel => "PixelWand not a wand"@,
        }
    }

    /// Builds the error of [`WandKind::not_a_wand_msg`].
    pub fn not_a_wand_error(self) -> (r: MagickError)
        ensures
            r.msg() == self.not_a_wand_msg(),
    {
        match self {
            WandKind::Magick => MagickError::from_str("MagickWand not a wand"),
            WandKind::Drawing => MagickError::from_str("DrawingWand not a wand"),
            WandKind::Pixel => MagickError::from_str("PixelWand not a wand"),
        }
    }
}

} // verus!
