//! A borrowed view into a wand's image list.
//!
//! An `Image` does not own the native image it points at: the owning wand
//! does, and destroys it together with itself.  The view therefore borrows
//! the wand, so the borrow checker ties the view's lifetime to the wand's
//! and rules out using the view after the wand is gone or while the wand is
//! mutated out from under it.  No separate destruction exists for a view.

use crate::magick::MagickWand;
use vstd::prelude::*;

verus! {

/// A borrowed, non-owning view of the current image of a wand.
pub struct Image<'a> {
    wand: &'a MagickWand,
}

impl<'a> Image<'a> {
    /// The wand the view borrows from.
    pub closed spec fn owner(self) -> MagickWand {
        *self.wand
    }

    /// Borrows the current image of a live wand.
    pub fn new(wand: &'a MagickWand) -> (r: Image<'a>)
        requires
            wand.live(),
        ensures
            r.owner() == *wand,
            r.owner().live(),
    {
        Image { wand }
    }

    /// The owning wand, for callers that hand the image on.
    pub fn get_wand(&self) -> (r: &'a MagickWand)
        ensures
            *r == self.owner(),
    {
        self.wand
    }
}

} // verus!
