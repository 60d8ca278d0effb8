//! The lifecycle and exception protocol shared by all wand kinds.
//!
//! A wand exclusively owns one native resource.  Its protocol state is: the
//! handle is live from construction until the one destruction, and carries a
//! mutable exception slot (a severity and a message) that failing native
//! calls fill, that readers copy out, and that clearing resets.  The state
//! machine here is the verified heart of that protocol: the raw native calls
//! happen outside, and report their outcomes into these transitions.
//!
//! The severity is the native exception tag; zero is the documented value
//! for "no exception pending".

use crate::conversions::MAGICK_TRUE;
use crate::exception::WandKind;
use crate::result::MagickError;
use vstd::prelude::*;

verus! {

/// The protocol state of one native wand handle.
pub struct WandCore {
    kind: WandKind,
    live: bool,
    severity: u32,
    message: String,
}

/// What the outcome decision for a status-returning native call yields:
/// success for the native true status, and otherwise the wand's pending
/// exception message as the error.
pub open spec fn boolean_outcome_spec(w: WandCore, no_error: u32) -> Result<(), Seq<char>> {
    if no_error == MAGICK_TRUE {
        Ok(())
    } else {
        Err(w.exception_message())
    }
}

impl WandCore {
    /// The kind of wand this handle is.
    pub closed spec fn kind(self) -> WandKind {
        self.kind
    }

    /// Whether the native resource is still owned: true from construction
    /// until destruction.
    pub closed spec fn live(self) -> bool {
        self.live
    }

    /// The severity of the pending exception; zero when none is pending.
    pub closed spec fn exception_severity(self) -> u32 {
        self.severity
    }

    /// The message of the pending exception.
    pub closed spec fn exception_message(self) -> Seq<char> {
        self.message@
    }

    /// Whether an exception is pending.
    pub open spec fn has_exception(self) -> bool {
        self.exception_severity() != 0
    }

    /// The clearing transition: it acts on a live wand, whatever was pending
    /// is gone, and nothing else about the wand changed.
    pub open spec fn clears(pre: WandCore, post: WandCore) -> bool {
        &&& pre.live()
        &&& post.kind() == pre.kind()
        &&& post.live() == pre.live()
        &&& !post.has_exception()
    }

    /// The destruction transition: it acts on a live wand whose exception
    /// slot was cleared first, and gives the native resource up.
    pub open spec fn destroys(pre: WandCore, post: WandCore) -> bool {
        &&& pre.live()
        &&& !pre.has_exception()
        &&& post.kind() == pre.kind()
        &&& !post.live()
        &&& !post.has_exception()
    }

    /// Adopts a freshly allocated native handle: live, no exception pending.
    pub fn new(kind: WandKind) -> (r: WandCore)
        ensures
            r.kind() == kind,
            r.live(),
            !r.has_exception(),
            r.exception_message() == Seq::<char>::empty(),
    {
        WandCore { kind, live: true, severity: 0, message: String::new() }
    }

    /// Mirrors the exception a failing native call left on the wand.
    pub fn set_exception(&mut self, severity: u32, message: String)
        requires
            old(self).live(),
        ensures
            final(self).kind() == old(self).kind(),
            final(self).live(),
            final(self).exception_severity() == severity,
            final(self).exception_message() == message@,
    {
        self.severity = severity;
        self.message = message;
    }

    /// The pending exception message, borrowed.
    pub fn exception_message_str(&self) -> (r: &str)
        ensures
            r@ == self.exception_message(),
    {
        self.message.as_str()
    }

    /// Reads the pending exception's severity without consuming it.
    pub fn get_exception_type(&self) -> (r: u32)
        ensures
            r == self.exception_severity(),
    {
        self.severity
    }

    /// Copies the pending exception out as an owned message and its
    /// severity.  `copy_ok` reports whether the native library handed a
    /// buffer over for the message; without one there is nothing to copy
    /// and the null answer is surfaced as a typed error.
    pub fn get_exception(&self, copy_ok: bool) -> (r: Result<(String, u32), MagickError>)
        ensures
            copy_ok ==> (r matches Ok(p) && p.0@ == self.exception_message() && p.1
                == self.exception_severity()),
            !copy_ok ==> (r matches Err(e) && e.msg() == self.kind().null_exception_msg()),
    {
        if copy_ok {
            Ok((self.message.as_str().to_owned(), self.severity))
        } else {
            Err(self.kind.null_exception_error())
        }
    }

    /// Clears the exception slot.  `native_ok` reports whether the native
    /// clearing call succeeded; its failure is surfaced as a typed error,
    /// after the slot is reset either way.
    pub fn clear_exception(&mut self, native_ok: bool) -> (r: Result<(), MagickError>)
        requires
            old(self).live(),
        ensures
            WandCore::clears(*old(self), *final(self)),
            final(self).live(),
            native_ok ==> r is Ok,
            !native_ok ==> (r matches Err(e) && e.msg() == old(self).kind().clear_failed_msg()),
    {
        self.severity = 0;
        self.message = String::new();
        if native_ok {
            Ok(())
        } else {
            Err(self.kind.clear_failed_error())
        }
    }

    /// Turns the native "is this a wand of the expected kind" answer into a
    /// typed result naming the kind.
    pub fn is_wand(&self, native_ok: bool) -> (r: Result<(), MagickError>)
        ensures
            native_ok ==> r is Ok,
            !native_ok ==> (r matches Err(e) && e.msg() == self.kind().not_a_wand_msg()),
    {
        if native_ok {
            Ok(())
        } else {
            Err(self.kind.not_a_wand_error())
        }
    }

    /// Turns a status-returning native call's outcome into a typed result:
    /// the native true status is success, and any other status reports the
    /// wand's pending exception message.
    pub fn result_from_boolean(&self, no_error: u32) -> (r: Result<(), MagickError>)
        requires
            self.live(),
        ensures
            no_error == MAGICK_TRUE ==> r is Ok,
            no_error != MAGICK_TRUE ==> (r matches Err(e) && e.msg() == self.exception_message()),
            r is Ok <==> boolean_outcome_spec(*self, no_error) is Ok,
            r matches Err(e) ==> boolean_outcome_spec(*self, no_error) == Err::<(), Seq<char>>(
                e.msg(),
            ),
    {
        if no_error == MAGICK_TRUE {
            Ok(())
        } else {
            Err(MagickError(self.message.as_str().to_owned()))
        }
    }

    /// Gives the native resource up.  Destruction requires the exception
    /// slot already cleared — destroying a wand with a pending exception
    /// would leak the exception's native allocations — and is enabled only
    /// once: afterwards the wand is no longer live.
    pub fn destroy(&mut self)
        requires
            old(self).live(),
            !old(self).has_exception(),
        ensures
            WandCore::destroys(*old(self), *final(self)),
    {
        self.live = false;
    }

    /// The clone protocol: the native library produces an independent copy
    /// of the resource, so the copy is live with an empty exception slot,
    /// and destroying either wand leaves the other untouched.
    pub fn clone_core(&self) -> (r: WandCore)
        ensures
            r.kind() == self.kind(),
            r.live(),
            !r.has_exception(),
    {
        WandCore { kind: self.kind, live: true, severity: 0, message: String::new() }
    }
}

/// Law (exception isolation): clearing a pending exception does not linger.
/// After the clearing transition the wand is live again with no pending
/// exception, and the outcome decision for a subsequent native call depends
/// only on that call's own status: a successful status yields success, no
/// matter what exception was pending and cleared before.
pub proof fn lemma_exception_isolation(pre: WandCore, post: WandCore)
    requires
        pre.live(),
        WandCore::clears(pre, post),
    ensures
        post.live(),
        !post.has_exception(),
        boolean_outcome_spec(post, MAGICK_TRUE) == Ok::<(), Seq<char>>(()),
{
}

/// Law (single destruction): the destruction transition is enabled at most
/// once; a destroyed wand cannot be destroyed again, so the native resource
/// is given up exactly once.
pub proof fn lemma_destroy_once(w0: WandCore, w1: WandCore, w2: WandCore)
    requires
        WandCore::destroys(w0, w1),
    ensures
        !WandCore::destroys(w1, w2),
{
}

} // verus!
