//! Tests for boolean and C-string marshaling and the process-wide
//! initialization decisions.

use magick_rust::conversions::{bool_from_native, FromRust, ToMagick, MAGICK_FALSE, MAGICK_TRUE};
use magick_rust::cstring::to_c_string_bytes;
use magick_rust::library::{genesis_needed, query_fonts_outcome, terminus_needed};

#[test]
fn test_bool_to_native() {
    assert_eq!(u32::from_rust(true), MAGICK_TRUE);
    assert_eq!(u32::from_rust(false), MAGICK_FALSE);
    let native: u32 = true.to_magick();
    assert_eq!(native, 1);
    let native: u32 = false.to_magick();
    assert_eq!(native, 0);
}

#[test]
fn test_bool_from_native() {
    assert_eq!(bool_from_native(MAGICK_TRUE).unwrap(), true);
    assert_eq!(bool_from_native(MAGICK_FALSE).unwrap(), false);
    let err = bool_from_native(2).unwrap_err();
    assert_eq!(err.0, "boolean value out of the two recognized native states");
}

#[test]
fn test_bool_roundtrip() {
    for b in [false, true] {
        let native: u32 = b.to_magick();
        assert_eq!(bool_from_native(native).unwrap(), b);
    }
}

#[test]
fn test_c_string_bytes_appends_nul() {
    let bytes = to_c_string_bytes("jpeg").unwrap();
    assert_eq!(bytes, vec![b'j', b'p', b'e', b'g', 0]);
    let empty = to_c_string_bytes("").unwrap();
    assert_eq!(empty, vec![0]);
}

#[test]
fn test_c_string_rejects_embedded_nul() {
    let err = to_c_string_bytes("jp\0eg").unwrap_err();
    assert_eq!(err.0, "could not convert to cstring");
    let err = to_c_string_bytes("\0").unwrap_err();
    assert_eq!(err.0, "could not convert to cstring");
}

#[test]
fn test_genesis_and_terminus_follow_the_native_flag() {
    // initialization runs only while the library is not yet instantiated
    assert!(genesis_needed(MAGICK_FALSE));
    assert!(!genesis_needed(MAGICK_TRUE));
    // teardown runs only while it still is: both are idempotent
    assert!(terminus_needed(MAGICK_TRUE));
    assert!(!terminus_needed(MAGICK_FALSE));
}

#[test]
fn test_query_fonts_outcome() {
    let fonts = vec![String::from("Helvetica"), String::from("Times")];
    assert_eq!(query_fonts_outcome(Some(fonts.clone())).unwrap(), fonts);
    let err = query_fonts_outcome(None).unwrap_err();
    assert_eq!(err.0, "null ptr returned by magick_query_fonts");
}
