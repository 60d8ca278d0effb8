//! The error type shared by every fallible operation of the wrapper.
//!
//! Every failure reported by the native library is surfaced as a
//! [`MagickError`] carrying a human-readable message, usually the exception
//! text read back from the failing wand.

use vstd::prelude::*;

verus! {

/// A wrapper-level error: the message either comes from the native library's
/// own exception text or names the wrapper-side condition that failed.
#[derive(Debug, Clone, PartialEq, Eq)]
pub struct MagickError(pub String);

impl MagickError {
    /// The message characters, as contracts speak of them.
    pub open spec fn msg(self) -> Seq<char> {
        self.0@
    }

    /// Builds an error from a borrowed message.
    pub fn from_str(s: &str) -> (r: MagickError)
        ensures
            r.msg() == s@,
    {
        MagickError(s.to_owned())
    }

    /// A borrowed view of the message, for callers that only report it.
    pub fn message(&self) -> (r: &str)
        ensures
            r@ == self.msg(),
    {
        self.0.as_str()
    }
}

} // verus!
