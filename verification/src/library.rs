//! Process-wide lifecycle of the native library.
//!
//! The native library wants one initialization before the first wand is made
//! and one teardown at process exit, and both must be harmless when repeated.
//! The wrapper therefore consults the library's own "is instantiated" flag
//! rather than keeping a counter of its own: these functions decide, from
//! that flag, whether the init or teardown call is due.

use crate::conversions::MAGICK_TRUE;
use crate::result::MagickError;
use vstd::prelude::*;

verus! {

/// Whether the one-time initialization call is still due, given the native
/// library's own "is instantiated" answer.  Asking again after a first
/// initialization is a no-op, which makes initialization idempotent.
pub fn genesis_needed(instantiated: u32) -> (r: bool)
    ensures
        r <==> instantiated != MAGICK_TRUE,
{
    instantiated != MAGICK_TRUE
}

/// Whether the one-time teardown call is due, given the native library's own
/// "is instantiated" answer.  Tearing down an uninitialized library would not
/// be harmless, so teardown runs only while the library reports itself
/// instantiated, which makes teardown idempotent as well.
pub fn terminus_needed(instantiated: u32) -> (r: bool)
    ensures
        r <==> instantiated == MAGICK_TRUE,
{
    instantiated == MAGICK_TRUE
}

/// Turns the nullable result of the font query into a typed result: the
/// names that came back, or the error the null answer stands for.
pub fn query_fonts_outcome(fonts: Option<Vec<String>>) -> (r: Result<
    Vec<String>,
    MagickError,
>)
    ensures
        fonts matches Some(v) ==> r == Ok::<Vec<String>, MagickError>(v),
        fonts is None ==> (r matches Err(e) && e.msg()
            == "null ptr returned by magick_query_fonts"@),
{
    match fonts {
        Some(v) => Ok(v),
        None => Err(MagickError::from_str("null ptr returned by magick_query_fonts")),
    }
}

} // verus!
