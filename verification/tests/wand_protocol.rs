//! Lifecycle and exception-protocol tests for the three wand kinds.

use magick_rust::{DrawingWand, Image, MagickError, MagickWand, OrientationType, PixelWand,
    StatisticType};

#[test]
fn test_new_drop() {
    MagickWand::new();
}

#[test]
fn test_result_from_boolean_success() {
    let wand = MagickWand::new();
    assert!(wand.result_from_boolean(1).is_ok());
}

#[test]
fn test_result_from_boolean_reports_exception_message() {
    let mut wand = MagickWand::new();
    wand.set_exception(400, String::from("unable to open image"));
    let err = wand.result_from_boolean(0).unwrap_err();
    assert_eq!(err.0, "unable to open image");
}

#[test]
fn test_result_from_boolean_with_error_message() {
    assert!(MagickWand::result_from_boolean_with_error_message(1, "failed to set resource limit")
        .is_ok());
    let err = MagickWand::result_from_boolean_with_error_message(0, "failed to set resource limit")
        .unwrap_err();
    assert_eq!(err.0, "failed to set resource limit");
}

#[test]
fn test_result_from_ptr() {
    let mut wand = MagickWand::new();
    assert_eq!(wand.result_from_ptr(Some(7usize)).unwrap(), 7);
    wand.set_exception(410, String::from("no decode delegate"));
    let err = wand.result_from_ptr(None::<usize>).unwrap_err();
    assert_eq!(err.0, "no decode delegate");
}

#[test]
fn test_result_from_ptr_with_error_message() {
    let ok: Result<u8, MagickError> =
        MagickWand::result_from_ptr_with_error_message(Some(3u8), "failed to append image");
    assert_eq!(ok.unwrap(), 3);
    let err: Result<u8, MagickError> =
        MagickWand::result_from_ptr_with_error_message(None, "failed to append image");
    assert_eq!(err.unwrap_err().0, "failed to append image");
}

#[test]
fn test_exception_isolation_after_clear() {
    // a failing operation leaves an exception; reading it, then clearing it,
    // leaves the wand able to report success for the next operation
    let mut wand = MagickWand::new();
    wand.set_exception(400, String::from("width or height exceeds limit"));
    assert_eq!(wand.get_exception_type(), 400);
    let (message, severity) = wand.get_exception(true).unwrap();
    assert_eq!(message, "width or height exceeds limit");
    assert_eq!(severity, 400);
    assert!(wand.clear_exception(true).is_ok());
    assert_eq!(wand.get_exception_type(), 0);
    let (message, severity) = wand.get_exception(true).unwrap();
    assert_eq!(message, "");
    assert_eq!(severity, 0);
    assert!(wand.result_from_boolean(1).is_ok());
}

#[test]
fn test_get_exception_null_buffer() {
    let wand = MagickWand::new();
    let err = wand.get_exception(false).unwrap_err();
    assert_eq!(err.0, "null ptr returned byMagickWandget_exception");
    let drawing = DrawingWand::new();
    let err = drawing.get_exception(false).unwrap_err();
    assert_eq!(err.0, "null ptr returned byDrawingWandget_exception");
    let pixel = PixelWand::new();
    let err = pixel.get_exception(false).unwrap_err();
    assert_eq!(err.0, "null ptr returned byPixelWandget_exception");
}

#[test]
fn test_clear_exception_failure_message() {
    let mut wand = MagickWand::new();
    let err = wand.clear_exception(false).unwrap_err();
    assert_eq!(err.0, "failed to clearMagickWandexception");
    let mut drawing = DrawingWand::new();
    let err = drawing.clear_exception(false).unwrap_err();
    assert_eq!(err.0, "failed to clearDrawingWandexception");
    let mut pixel = PixelWand::new();
    let err = pixel.clear_exception(false).unwrap_err();
    assert_eq!(err.0, "failed to clearPixelWandexception");
}

#[test]
fn test_is_wand_messages() {
    let wand = MagickWand::new();
    assert!(wand.is_wand(true).is_ok());
    assert_eq!(wand.is_wand(false).unwrap_err().0, "MagickWand not a wand");
    let drawing = DrawingWand::new();
    assert_eq!(drawing.is_wand(false).unwrap_err().0, "DrawingWand not a wand");
    let pixel = PixelWand::new();
    assert_eq!(pixel.is_wand(false).unwrap_err().0, "PixelWand not a wand");
}

#[test]
fn test_destroy_after_clear() {
    let mut wand = MagickWand::new();
    wand.set_exception(300, String::from("a warning"));
    let _ = wand.clear_exception(true);
    wand.destroy();
}

#[test]
fn test_clone_is_independent() {
    let mut wand = MagickWand::new();
    wand.set_exception(400, String::from("corrupt image"));
    let copy = wand.clone();
    // the copy starts with an empty exception slot of its own
    assert_eq!(copy.get_exception_type(), 0);
    // and the original still carries its exception
    assert_eq!(wand.get_exception_type(), 400);
    // destroying one leaves the other usable
    let mut copy = copy;
    let _ = copy.clear_exception(true);
    copy.destroy();
    assert_eq!(wand.get_exception(true).unwrap().0, "corrupt image");
}

#[test]
fn test_requires_orientation() {
    let wand = MagickWand::new();
    assert!(!wand.requires_orientation(OrientationType::TopLeft));
    assert!(wand.requires_orientation(OrientationType::Undefined));
    assert!(wand.requires_orientation(OrientationType::LeftBottom));
}

#[test]
fn test_median_blur_image_plans_median_statistic() {
    let wand = MagickWand::new();
    assert_eq!(wand.median_blur_image(10, 10), (StatisticType::Median, 10, 10));
    assert_eq!(
        wand.statistic_image(StatisticType::Mode, 3, 5),
        (StatisticType::Mode, 3, 5)
    );
}

#[test]
fn test_missing_property_and_artifact_errors() {
    let err = MagickWand::missing_property_error("exif:Foobar");
    assert_eq!(err.0, "missing property: exif:Foobar");
    let err = MagickWand::missing_artifact_error("compose:args");
    assert_eq!(err.0, "missing artifact: compose:args");
}

#[test]
fn test_image_borrows_its_wand() {
    let wand = MagickWand::new();
    let image = Image::new(&wand);
    let owner = image.get_wand();
    assert!(owner.is_wand(true).is_ok());
}

#[test]
fn test_pixel_set_color_rejects_embedded_nul() {
    let pixel = PixelWand::new();
    let err = pixel.set_color("#00\0FF", 1).unwrap_err();
    assert_eq!(err.0, "could not convert to cstring");
}

#[test]
fn test_pixel_set_color_outcomes() {
    let mut pixel = PixelWand::new();
    assert!(pixel.set_color("#0000FF", 1).is_ok());
    pixel.set_exception(465, String::from("unrecognized color"));
    let err = pixel.set_color("not-a-color", 0).unwrap_err();
    assert_eq!(err.0, "unrecognized color");
}

#[test]
fn test_pixel_fmt_w_prefix() {
    let mut pixel = PixelWand::new();
    pixel.set_exception(465, String::from("unrecognized color"));
    let text = pixel.fmt_w_prefix("  ");
    assert_eq!(text, "  PixelWand { Exception: unrecognized color }");
}

#[test]
fn test_error_from_str_and_message() {
    let err = MagickError::from_str("some message");
    assert_eq!(err.message(), "some message");
    assert_eq!(err, MagickError(String::from("some message")));
}
