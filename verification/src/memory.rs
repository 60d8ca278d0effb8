//! Ownership transfer of buffers the native library allocated.
//!
//! Several native calls hand the caller a buffer from the native allocator.
//! The wrapper's obligation is: copy what it needs out of the buffer first,
//! then hand the buffer back to the native allocator exactly once, and never
//! touch it again.  [`NativeBuffer`] makes that protocol a type: reading
//! requires the buffer not yet handed back, and handing back is only enabled
//! once.

use crate::wand_core::WandCore;
use vstd::prelude::*;

verus! {

/// A byte buffer the native library allocated, together with the obligation
/// to hand it back exactly once.  The slice is the native memory itself, so
/// every use of it must come before the hand-back.
pub struct NativeBuffer<'a> {
    contents: &'a [u8],
    released: bool,
}

impl<'a> NativeBuffer<'a> {
    /// The bytes the buffer holds.
    pub closed spec fn contents(self) -> Seq<u8> {
        self.contents@
    }

    /// Whether the buffer has already been handed back.
    pub closed spec fn released(self) -> bool {
        self.released
    }

    /// Adopts a buffer received from a native call.  The caller has not
    /// handed it back yet, so the single permitted hand-back is still due.
    pub fn adopt(contents: &'a [u8]) -> (r: NativeBuffer<'a>)
        ensures
            r.contents() == contents@,
            !r.released(),
    {
        NativeBuffer { contents, released: false }
    }

    /// Copies the whole buffer into an owned vector.  Only a buffer that has
    /// not been handed back may still be read, so the copy necessarily comes
    /// before the hand-back.
    pub fn to_owned_bytes(&self) -> (r: Vec<u8>)
        requires
            !self.released(),
        ensures
            r@ == self.contents(),
    {
        let mut out: Vec<u8> = Vec::new();
        let mut i: usize = 0;
        while i < self.contents.len()
            invariant
                0 <= i <= self.contents.len(),
                out@ == self.contents@.subrange(0, i as int),
            decreases self.contents.len() - i,
        {
            out.push(self.contents[i]);
            i += 1;
        }
        proof {
            assert(out@ =~= self.contents@);
        }
        out
    }

    /// The hand-back transition: it is enabled only while the buffer was not
    /// handed back before, and it leaves the buffer handed back.
    pub open spec fn releases(pre: NativeBuffer<'a>, post: NativeBuffer<'a>) -> bool {
        &&& !pre.released()
        &&& post.released()
        &&& post.contents() == pre.contents()
    }

    /// Marks the single permitted hand-back; the caller performs the native
    /// deallocation call at this point and at no other.
    pub fn release(&mut self)
        requires
            !old(self).released(),
        ensures
            NativeBuffer::releases(*old(self), *final(self)),
    {
        self.released = true;
    }

    /// Law: a completed hand-back cannot be followed by another hand-back of
    /// the same buffer: the transition is enabled at most once in any
    /// sequence of states of one buffer.
    pub proof fn lemma_release_once(b0: NativeBuffer<'a>, b1: NativeBuffer<'a>, b2: NativeBuffer<'a>)
        requires
            NativeBuffer::releases(b0, b1),
        ensures
            !NativeBuffer::releases(b1, b2),
    {
    }

    /// Law: a blob write followed by a drop of the source wand releases the
    /// native buffer exactly once.  The wand's destruction acts on the
    /// wand's own state alone, and after the one hand-back that the blob
    /// write performed, a second hand-back of the same buffer is not
    /// enabled.
    pub proof fn lemma_blob_write_then_drop(
        b0: NativeBuffer<'a>,
        b1: NativeBuffer<'a>,
        b2: NativeBuffer<'a>,
        w0: WandCore,
        w1: WandCore,
    )
        requires
            NativeBuffer::releases(b0, b1),
            WandCore::destroys(w0, w1),
        ensures
            b1.released(),
            !NativeBuffer::releases(b1, b2),
            !w1.live(),
    {
    }
}

} // verus!
