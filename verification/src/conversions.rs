//! Conversion between Rust values and their native representations.
//!
//! The native library encodes booleans as an integer pair: zero for false and
//! one for true.  The safe-to-native direction is total; the native-to-safe
//! direction treats every other integer as a conversion error, as no meaning
//! is documented for it.

use crate::result::MagickError;
use vstd::prelude::*;

verus! {

/// The native library's encoding of `false`.
pub const MAGICK_FALSE: u32 = 0;

/// The native library's encoding of `true`.
pub const MAGICK_TRUE: u32 = 1;

/// Conversion from a Rust value into a native representation.
pub trait FromRust<T>: Sized {
    /// What the conversion returns.
    spec fn from_rust_spec(t: T) -> Self;

    /// Converts a Rust value into its native representation.
    fn from_rust(t: T) -> (r: Self)
        ensures
            r == Self::from_rust_spec(t),
    ;
}

impl FromRust<bool> for u32 {
    open spec fn from_rust_spec(b: bool) -> u32 {
        if b {
            MAGICK_TRUE as u32
        } else {
            MAGICK_FALSE as u32
        }
    }

    fn from_rust(b: bool) -> (r: u32) {
        if b {
            MAGICK_TRUE
        } else {
            MAGICK_FALSE
        }
    }
}

/// The companion of [`FromRust`], written from the value's side.
pub trait ToMagick<T>: Sized {
    /// What the conversion returns.
    spec fn to_magick_spec(self) -> T;

    /// Converts this Rust value into its native representation.
    fn to_magick(self) -> (r: T)
        ensures
            r == self.to_magick_spec(),
    ;
}

impl<T, E> ToMagick<T> for E where T: FromRust<E> {
    open spec fn to_magick_spec(self) -> T {
        T::from_rust_spec(self)
    }

    fn to_magick(self) -> (r: T) {
        <T as FromRust<E>>::from_rust(self)
    }
}

/// Converts a native boolean back into a Rust `bool`.  Only the two
/// documented sentinel values are accepted; anything else is an error
/// rather than a guess.
pub fn bool_from_native(v: u32) -> (r: Result<bool, MagickError>)
    ensures
        v == MAGICK_TRUE ==> r == Ok::<bool, MagickError>(true),
        v == MAGICK_FALSE ==> r == Ok::<bool, MagickError>(false),
        v != MAGICK_TRUE && v != MAGICK_FALSE ==> (r matches Err(e) && e.msg()
            == "boolean value out of the two recognized native states"@),
{
    if v == MAGICK_TRUE {
        Ok(true)
    } else if v == MAGICK_FALSE {
        Ok(false)
    } else {
        Err(MagickError::from_str("boolean value out of the two recognized native states"))
    }
}

/// Law: a boolean survives the trip into the native encoding and back.
pub proof fn lemma_bool_roundtrip(b: bool)
    ensures
        <u32 as FromRust<bool>>::from_rust_spec(b) == if b {
            1u32
        } else {
            0u32
        },
        b == (<u32 as FromRust<bool>>::from_rust_spec(b) == MAGICK_TRUE),
{
}

} // verus!
