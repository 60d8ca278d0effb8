//! The single-pixel-color wand.
//!
//! A `PixelWand` owns one native pixel context: a color value together with
//! the usual wand lifecycle and exception slot.  The color arithmetic itself
//! is native; the verified part is the protocol around it, the C-string
//! check when a color is set from a string, and the error routing.

use crate::conversions::MAGICK_TRUE;
use crate::cstring::has_nul;
use crate::exception::WandKind;
use crate::result::MagickError;
use crate::wand_core::WandCore;
use vstd::prelude::*;
use vstd::string::StringExecFns;
use vstd::string::StringSliceAdditionalSpecFns;

verus! {

/// The protocol state of one native pixel wand.
pub struct PixelWand {
    core: WandCore,
}

impl PixelWand {
    /// The wand kind this handle carries; always the pixel kind for values
    /// built by this type's constructors.
    pub closed spec fn kind(self) -> WandKind {
        self.core.kind()
    }

    /// Whether the native resource is still owned.
    pub closed spec fn live(self) -> bool {
        self.core.live()
    }

    /// The severity of the pending exception; zero when none is pending.
    pub closed spec fn exception_severity(self) -> u32 {
        self.core.exception_severity()
    }

    /// The message of the pending exception.
    pub closed spec fn exception_message(self) -> Seq<char> {
        self.core.exception_message()
    }

    /// Whether an exception is pending.
    pub open spec fn has_exception(self) -> bool {
        self.exception_severity() != 0
    }

    /// The wand's protocol state, for the laws stated over [`WandCore`].
    pub closed spec fn core_state(self) -> WandCore {
        self.core
    }

    /// Adopts a freshly allocated native pixel wand.
    pub fn new() -> (r: PixelWand)
        ensures
            r.kind() == WandKind::Pixel,
            r.live(),
            !r.has_exception(),
    {
        PixelWand { core: WandCore::new(WandKind::Pixel) }
    }

    /// Mirrors the exception a failing native call left on the wand.
    pub fn set_exception(&mut self, severity: u32, message: String)
        requires
            old(self).live(),
        ensures
            final(self).kind() == old(self).kind(),
            final(self).live(),
            final(self).exception_severity() == severity,
            final(self).exception_message() == message@,
    {
        self.core.set_exception(severity, message);
    }

    /// Reads the pending exception's severity without consuming it.
    pub fn get_exception_type(&self) -> (r: u32)
        ensures
            r == self.exception_severity(),
    {
        self.core.get_exception_type()
    }

    /// Copies the pending exception out; `copy_ok` reports whether the
    /// native library handed a message buffer over.
    pub fn get_exception(&self, copy_ok: bool) -> (r: Result<(String, u32), MagickError>)
        ensures
            copy_ok ==> (r matches Ok(p) && p.0@ == self.exception_message() && p.1
                == self.exception_severity()),
            !copy_ok ==> (r matches Err(e) && e.msg() == self.kind().null_exception_msg()),
    {
        self.core.get_exception(copy_ok)
    }

    /// Clears the exception slot; `native_ok` reports the native clearing
    /// call's own status.
    pub fn clear_exception(&mut self, native_ok: bool) -> (r: Result<(), MagickError>)
        requires
            old(self).live(),
        ensures
            WandCore::clears(old(self).core_state(), final(self).core_state()),
            final(self).kind() == old(self).kind(),
            final(self).live(),
            !final(self).has_exception(),
            native_ok ==> r is Ok,
            !native_ok ==> (r matches Err(e) && e.msg() == old(self).kind().clear_failed_msg()),
    {
        self.core.clear_exception(native_ok)
    }

    /// Turns the native "is this a wand" answer into a typed result.
    pub fn is_wand(&self, native_ok: bool) -> (r: Result<(), MagickError>)
        ensures
            native_ok ==> r is Ok,
            !native_ok ==> (r matches Err(e) && e.msg() == self.kind().not_a_wand_msg()),
    {
        self.core.is_wand(native_ok)
    }

    /// Gives the native resource up; the exception slot must be cleared
    /// first, and a destroyed wand cannot be destroyed again.
    pub fn destroy(&mut self)
        requires
            old(self).live(),
            !old(self).has_exception(),
        ensures
            WandCore::destroys(old(self).core_state(), final(self).core_state()),
            final(self).kind() == old(self).kind(),
            !final(self).live(),
    {
        self.core.destroy();
    }

    /// Decides the outcome of setting the color from a string: a string
    /// with an embedded NUL byte cannot reach the native parser and is a
    /// conversion error; otherwise the native call's status decides, and a
    /// failing status reports the wand's pending exception message.
    pub fn set_color(&self, s: &str, native_ok: u32) -> (r: Result<(), MagickError>)
        requires
            self.live(),
        ensures
            has_nul(s.spec_bytes()) ==> (r matches Err(e) && e.msg()
                == "could not convert to cstring"@),
            !has_nul(s.spec_bytes()) && native_ok == MAGICK_TRUE ==> r is Ok,
            !has_nul(s.spec_bytes()) && native_ok != MAGICK_TRUE ==> (r matches Err(e) && e.msg()
                == self.exception_message()),
    {
        match crate::cstring::to_c_string_bytes(s) {
            Err(e) => Err(e),
            Ok(_) => self.core.result_from_boolean(native_ok),
        }
    }

    /// A one-value-per-line summary of the wand's state, each line opened by
    /// the given prefix; the counterpart of the wand's debug formatting.
    pub fn fmt_w_prefix(&self, prefix: &str) -> (r: String)
        ensures
            r@ == prefix@ + "PixelWand { Exception: "@ + self.exception_message() + " }"@,
    {
        let text = String::from_str(prefix).concat("PixelWand { Exception: ");
        let text = text.concat(self.exception_message_str());
        text.concat(" }")
    }

    /// The pending exception message, borrowed.
    fn exception_message_str(&self) -> (r: &str)
        ensures
            r@ == self.exception_message(),
    {
        self.core.exception_message_str()
    }
}

impl Clone for PixelWand {
    /// The clone protocol: the native library produces an independent copy
    /// of the resource, live and with an empty exception slot; destroying
    /// either wand leaves the other untouched.
    fn clone(&self) -> (r: PixelWand)
        ensures
            r.kind() == self.kind(),
            r.live(),
            !r.has_exception(),
    {
        PixelWand { core: self.core.clone_core() }
    }
}

} // verus!
