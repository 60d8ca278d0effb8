//! The convolution/morphology kernel descriptor.
//!
//! A `KernelInfo` owns one native kernel descriptor.  Construction goes
//! through the native acquire call and explicitly fails when that call hands
//! nothing back; cloning asks the native library for a deep copy; and the
//! one destruction per descriptor happens on drop — never twice for the same
//! descriptor, and never for a descriptor obtained from a failed acquire.

use crate::geometry::lemma_usize_product_fits_u128;
use crate::result::MagickError;
use vstd::prelude::*;

verus! {

/// The protocol state of one native kernel descriptor.
#[derive(Debug)]
pub struct KernelInfo {
    live: bool,
}

impl KernelInfo {
    /// Whether the native descriptor is still owned.
    pub closed spec fn live(self) -> bool {
        self.live
    }

    /// Adopts the result of the native acquire call: a descriptor when the
    /// call produced one, and a typed error when it handed nothing back.
    pub fn new(acquired: bool) -> (r: Result<KernelInfo, MagickError>)
        ensures
            acquired ==> (r matches Ok(k) && k.live()),
            !acquired ==> (r matches Err(e) && e.msg() == "failed to acquire kernel info"@),
    {
        if acquired {
            Ok(KernelInfo { live: true })
        } else {
            Err(MagickError::from_str("failed to acquire kernel info"))
        }
    }

    /// The clone protocol: the native library produced a deep copy, so the
    /// copy is an independently owned live descriptor.  A failed native
    /// clone is an unrecoverable fault the caller reports before getting
    /// here, so it is excluded rather than handled.
    pub fn clone_acquired(&self, acquired: bool) -> (r: KernelInfo)
        requires
            self.live(),
            acquired,
        ensures
            r.live(),
    {
        KernelInfo { live: true }
    }

    /// Gives the native descriptor up: enabled only while it is owned, so
    /// the paired native destroy call runs exactly once per descriptor.
    pub fn destroy(&mut self)
        requires
            old(self).live(),
        ensures
            !final(self).live(),
    {
        self.live = false;
    }
}

/// Checks the shape of a user-defined kernel before anything is handed to
/// the native acquire call: a size and values must have been given, and the
/// value count must fill the size exactly.
pub fn kernel_shape_check(size: Option<(usize, usize)>, value_count: Option<usize>) -> (r: Result<
    (usize, usize),
    MagickError,
>)
    ensures
        size is None ==> (r matches Err(e) && e.msg() == "no kernel size given"@),
        size is Some && value_count is None ==> (r matches Err(e) && e.msg()
            == "no kernel values given"@),
        size is Some && value_count is Some && value_count->Some_0 == size->Some_0.0
            * size->Some_0.1 ==> r == Ok::<(usize, usize), MagickError>(size->Some_0),
        size is Some && value_count is Some && value_count->Some_0 != size->Some_0.0
            * size->Some_0.1 ==> (r matches Err(e) && e.msg()
            == "kernel size doesn't match kernel values size"@),
{
    match size {
        None => Err(MagickError::from_str("no kernel size given")),
        Some(s) => match value_count {
            None => Err(MagickError::from_str("no kernel values given")),
            Some(n) => {
                proof {
                    lemma_usize_product_fits_u128(s.0 as int, s.1 as int);
                }
                let expected: u128 = (s.0 as u128) * (s.1 as u128);
                if (n as u128) == expected {
                    Ok(s)
                } else {
                    Err(MagickError::from_str("kernel size doesn't match kernel values size"))
                }
            },
        },
    }
}

} // verus!
