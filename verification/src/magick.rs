//! The image-processing wand: the main context of the wrapper.
//!
//! A `MagickWand` owns one native image-processing context.  The type here
//! is the verified protocol core of that wand: its lifecycle and exception
//! state, and the decision layer that turns native status codes and nullable
//! results into typed results.  The raw calls happen outside and report
//! their outcomes in as plain values.

use crate::conversions::MAGICK_TRUE;
use crate::exception::WandKind;
use crate::orientation_type::OrientationType;
use crate::result::MagickError;
use crate::statistic_type::StatisticType;
use crate::wand_core::WandCore;
use crate::wand_core::boolean_outcome_spec;
use vstd::prelude::*;
use vstd::string::StringExecFns;

verus! {

/// The protocol state of one native image-processing wand.
pub struct MagickWand {
    core: WandCore,
}

impl MagickWand {
    /// The wand kind this handle carries; always the image-processing kind
    /// for values built by this type's constructors.
    pub closed spec fn kind(self) -> WandKind {
        self.core.kind()
    }

    /// Whether the native resource is still owned.
    pub closed spec fn live(self) -> bool {
        self.core.live()
    }

    /// The severity of the pending exception; zero when none is pending.
    pub closed spec fn exception_severity(self) -> u32 {
        self.core.exception_severity()
    }

    /// The message of the pending exception.
    pub closed spec fn exception_message(self) -> Seq<char> {
        self.core.exception_message()
    }

    /// Whether an exception is pending.
    pub open spec fn has_exception(self) -> bool {
        self.exception_severity() != 0
    }

    /// Adopts a freshly allocated native image wand.
    pub fn new() -> (r: MagickWand)
        ensures
            r.kind() == WandKind::Magick,
            r.live(),
            !r.has_exception(),
    {
        MagickWand { core: WandCore::new(WandKind::Magick) }
    }

    /// Mirrors the exception a failing native call left on the wand.
    pub fn set_exception(&mut self, severity: u32, message: String)
        requires
            old(self).live(),
        ensures
            final(self).kind() == old(self).kind(),
            final(self).live(),
            final(self).exception_severity() == severity,
            final(self).exception_message() == message@,
    {
        self.core.set_exception(severity, message);
    }

    /// Reads the pending exception's severity without consuming it.
    pub fn get_exception_type(&self) -> (r: u32)
        ensures
            r == self.exception_severity(),
    {
        self.core.get_exception_type()
    }

    /// Copies the pending exception out; `copy_ok` reports whether the
    /// native library handed a message buffer over.
    pub fn get_exception(&self, copy_ok: bool) -> (r: Result<(String, u32), MagickError>)
        ensures
            copy_ok ==> (r matches Ok(p) && p.0@ == self.exception_message() && p.1
                == self.exception_severity()),
            !copy_ok ==> (r matches Err(e) && e.msg() == self.kind().null_exception_msg()),
    {
        self.core.get_exception(copy_ok)
    }

    /// Clears the exception slot; `native_ok` reports the native clearing
    /// call's own status.
    pub fn clear_exception(&mut self, native_ok: bool) -> (r: Result<(), MagickError>)
        requires
            old(self).live(),
        ensures
            WandCore::clears(old(self).core_state(), final(self).core_state()),
            final(self).kind() == old(self).kind(),
            final(self).live(),
            !final(self).has_exception(),
            native_ok ==> r is Ok,
            !native_ok ==> (r matches Err(e) && e.msg() == old(self).kind().clear_failed_msg()),
    {
        self.core.clear_exception(native_ok)
    }

    /// Turns the native "is this a wand" answer into a typed result.
    pub fn is_wand(&self, native_ok: bool) -> (r: Result<(), MagickError>)
        ensures
            native_ok ==> r is Ok,
            !native_ok ==> (r matches Err(e) && e.msg() == self.kind().not_a_wand_msg()),
    {
        self.core.is_wand(native_ok)
    }

    /// Gives the native resource up; the exception slot must be cleared
    /// first, and a destroyed wand cannot be destroyed again.
    pub fn destroy(&mut self)
        requires
            old(self).live(),
            !old(self).has_exception(),
        ensures
            WandCore::destroys(old(self).core_state(), final(self).core_state()),
            final(self).kind() == old(self).kind(),
            !final(self).live(),
    {
        self.core.destroy();
    }

    /// The wand's protocol state, for the laws stated over [`WandCore`].
    pub closed spec fn core_state(self) -> WandCore {
        self.core
    }

    /// Turns a status-returning native call's outcome into a typed result:
    /// the native true status is success, and any other status reports the
    /// wand's pending exception message.
    pub fn result_from_boolean(&self, no_error: u32) -> (r: Result<(), MagickError>)
        requires
            self.live(),
        ensures
            no_error == MAGICK_TRUE ==> r is Ok,
            no_error != MAGICK_TRUE ==> (r matches Err(e) && e.msg() == self.exception_message()),
            r is Ok <==> boolean_outcome_spec(self.core_state(), no_error) is Ok,
    {
        self.core.result_from_boolean(no_error)
    }

    /// Like [`MagickWand::result_from_boolean`], for calls whose failure has
    /// a fixed message instead of the wand's exception text.
    pub fn result_from_boolean_with_error_message(no_error: u32, message: &str) -> (r: Result<
        (),
        MagickError,
    >)
        ensures
            no_error == MAGICK_TRUE ==> r is Ok,
            no_error != MAGICK_TRUE ==> (r matches Err(e) && e.msg() == message@),
    {
        if no_error == MAGICK_TRUE {
            Ok(())
        } else {
            Err(MagickError::from_str(message))
        }
    }

    /// Turns a nullable native result into a typed result: an absent value
    /// reports the wand's pending exception message.
    pub fn result_from_ptr<T>(&self, value: Option<T>) -> (r: Result<T, MagickError>)
        requires
            self.live(),
        ensures
            value matches Some(v) ==> r == Ok::<T, MagickError>(v),
            value is None ==> (r matches Err(e) && e.msg() == self.exception_message()),
    {
        match value {
            Some(v) => Ok(v),
            None => Err(MagickError(self.message_text())),
        }
    }

    /// Like [`MagickWand::result_from_ptr`], for calls whose failure has a
    /// fixed message instead of the wand's exception text.
    pub fn result_from_ptr_with_error_message<T>(value: Option<T>, message: &str) -> (r: Result<
        T,
        MagickError,
    >)
        ensures
            value matches Some(v) ==> r == Ok::<T, MagickError>(v),
            value is None ==> (r matches Err(e) && e.msg() == message@),
    {
        match value {
            Some(v) => Ok(v),
            None => Err(MagickError::from_str(message)),
        }
    }

    /// Whether an image in the given orientation should be auto-oriented
    /// before viewing: every orientation but top-left needs it.
    pub fn requires_orientation(&self, orientation: OrientationType) -> (r: bool)
        ensures
            r <==> orientation != OrientationType::TopLeft,
    {
        !matches!(orientation, OrientationType::TopLeft)
    }

    /// Plans the native neighborhood-statistic call: which statistic to
    /// gather over which neighborhood.  The caller performs the call and
    /// feeds its status to [`MagickWand::result_from_boolean`].
    pub fn statistic_image(
        &self,
        statistic_type: StatisticType,
        width: usize,
        height: usize,
    ) -> (r: (StatisticType, usize, usize))
        ensures
            r == (statistic_type, width, height),
    {
        (statistic_type, width, height)
    }

    /// Median filtering is neighborhood-statistic filtering with the median
    /// statistic: the plan differs from the arguments only in the statistic
    /// picked.
    pub fn median_blur_image(&self, width: usize, height: usize) -> (r: (
        StatisticType,
        usize,
        usize,
    ))
        ensures
            r == (StatisticType::Median, width, height),
    {
        self.statistic_image(StatisticType::Median, width, height)
    }

    /// The zero-filled staging buffer a pixel export writes into: one byte
    /// per channel value, channels given by the map's length.
    pub fn export_pixel_buffer(width: usize, height: usize, map_len: usize) -> (r: Vec<u8>)
        requires
            width * height * map_len <= usize::MAX,
        ensures
            r@.len() == width * height * map_len,
            forall|i: int| 0 <= i < r@.len() ==> r@[i] == 0,
    {
        if map_len == 0 {
            return Vec::new();
        }
        proof {
            assert(width * height <= width * height * map_len && (width * height) * map_len
                == width * height * map_len) by (nonlinear_arith)
                requires
                    map_len >= 1,
                    width >= 0,
                    height >= 0,
            ;
        }
        let area: usize = width * height;
        let capacity: usize = area * map_len;
        let mut pixels: Vec<u8> = Vec::new();
        let mut i: usize = 0;
        while i < capacity
            invariant
                0 <= i <= capacity,
                pixels@.len() == i,
                forall|j: int| 0 <= j < i ==> pixels@[j] == 0,
            decreases capacity - i,
        {
            pixels.push(0);
            i += 1;
        }
        pixels
    }

    /// The error reported when a named image property is absent.
    pub fn missing_property_error(name: &str) -> (r: MagickError)
        ensures
            r.msg() == "missing property: "@ + name@,
    {
        MagickError(String::from_str("missing property: ").concat(name))
    }

    /// The error reported when a named image artifact is absent.
    pub fn missing_artifact_error(name: &str) -> (r: MagickError)
        ensures
            r.msg() == "missing artifact: "@ + name@,
    {
        MagickError(String::from_str("missing artifact: ").concat(name))
    }

    /// The pending exception message as an owned string.
    fn message_text(&self) -> (r: String)
        ensures
            r@ == self.exception_message(),
    {
        self.core.exception_message_str().to_owned()
    }
}

impl Clone for MagickWand {
    /// The clone protocol: the native library produces an independent copy
    /// of the resource, live and with an empty exception slot; destroying
    /// either wand leaves the other untouched.
    fn clone(&self) -> (r: MagickWand)
        ensures
            r.kind() == self.kind(),
            r.live(),
            !r.has_exception(),
    {
        MagickWand { core: self.core.clone_core() }
    }
}

} // verus!
