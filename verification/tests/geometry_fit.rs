//! Tests for the bounding-box fit arithmetic and the polynomial term split.

use magick_rust::geometry::{fit_dimensions, polynomial_term_count};

#[test]
fn test_fit() {
    // a 512 by 384 image fit within 240 by 240 keeps its 4:3 ratio
    assert_eq!(fit_dimensions(512, 384, 240, 240), (240, 180));
}

#[test]
fn test_fit_portrait() {
    assert_eq!(fit_dimensions(384, 512, 240, 240), (180, 240));
}

#[test]
fn test_fit_exact_and_upscale() {
    // fitting into the image's own size changes nothing
    assert_eq!(fit_dimensions(512, 384, 512, 384), (512, 384));
    // fitting into a larger box scales up, still by the tighter factor
    assert_eq!(fit_dimensions(512, 384, 1024, 1024), (1024, 768));
}

#[test]
fn test_fit_rounds_down() {
    // 100 * 33 / 100 = 33, 75 * 33 / 100 rounds 24.75 down to 24
    assert_eq!(fit_dimensions(100, 75, 33, 50), (33, 24));
}

#[test]
fn test_fit_stays_within_bounds() {
    for (w, h) in [(640usize, 480usize), (1, 1000), (1000, 1), (239, 241)] {
        let (fw, fh) = fit_dimensions(w, h, 240, 240);
        assert!(fw <= 240);
        assert!(fh <= 240);
    }
}

#[test]
fn test_polynomial_term_count() {
    // a coefficient-degree pair plus the trailing constant: one term
    assert_eq!(polynomial_term_count(3).unwrap(), 1);
    assert_eq!(polynomial_term_count(5).unwrap(), 2);
    assert_eq!(polynomial_term_count(1).unwrap(), 0);
    let err = polynomial_term_count(4).unwrap_err();
    assert_eq!(err.0, "no constant coefficient given");
    let err = polynomial_term_count(0).unwrap_err();
    assert_eq!(err.0, "no constant coefficient given");
}
