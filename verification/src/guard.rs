//! The borrow guard: a cursor lent out for filling.

use crate::read_buf::ReadBuf;
use crate::storage::{Bytes, SpareBytes};
use std::mem::MaybeUninit;
use std::ops::Deref;
use vstd::prelude::*;

verus! {

/// A mutable borrow of a [`ReadBuf`] that cannot be pointed at another
/// cursor.
///
/// A reader is handed a guard, not the cursor: it can fill the cursor and
/// move its marks, and it cannot put another cursor in its place.
///
/// Every operation of a guard is that of the cursor, and leaves the guard
/// with the same borrow: the last clause of each contract says that the
/// cursor at the end of the borrow is the same before and after the call.
#[derive(Debug)]
pub struct ReadBufRef<'a, S: Bytes> {
    read_buf: &'a mut ReadBuf<S>,
}

impl<S: Bytes> ReadBuf<S> {
    /// Lends the cursor out. What the guard leaves behind is the cursor
    /// afterwards.
    pub fn borrow(&mut self) -> (r: ReadBufRef<'_, S>)
        ensures
            *r.cursor() == *old(self),
            *final(r.cursor()) == *final(self),
    {
        ReadBufRef { read_buf: self }
    }
}

impl<'a, S: Bytes> ReadBufRef<'a, S> {
    /// The borrow that the guard holds: `*g.cursor()` is the cursor as it is
    /// now, `*final(g.cursor())` as it is when the borrow ends.
    pub closed spec fn cursor(&self) -> &mut ReadBuf<S> {
        self.read_buf
    }

    /// When a guard is not used any more, the cursor that it leaves behind
    /// is the cursor as the guard has it.
    pub proof fn lemma_resolved(&self)
        requires
            has_resolved(*self),
        ensures
            *self.cursor() == *final(self.cursor()),
    {
    }

    /// A second guard of the same cursor, for a shorter time. What it
    /// leaves behind is what this guard goes on with.
    pub fn reborrow(&mut self) -> (r: ReadBufRef<'_, S>)
        ensures
            *r.cursor() == *old(self).cursor(),
            *final(r.cursor()) == *final(self).cursor(),
            *final(final(self).cursor()) == *final(old(self).cursor()),
    {
        ReadBufRef { read_buf: &mut *self.read_buf }
    }

    /// The filled part, open to writing.
    pub fn filled_mut(&mut self) -> (r: &mut [u8])
        requires
            old(self).cursor().wf(),
        ensures
            r@ == old(self).cursor()@.filled_bytes(),
            final(r)@.len() == r@.len() ==> final(self).cursor().wf() && final(self).cursor()@
                == old(self).cursor()@.write_filled(final(r)@),
            *final(final(self).cursor()) == *final(old(self).cursor()),
    {
        self.read_buf.filled_mut()
    }

    /// The initialized part, open to writing.
    pub fn initialized_mut(&mut self) -> (r: &mut [u8])
        requires
            old(self).cursor().wf(),
        ensures
            r@ == old(self).cursor()@.initialized,
            final(r)@.len() == r@.len() ==> final(self).cursor().wf() && final(self).cursor()@
                == old(self).cursor()@.write_initialized(final(r)@),
            *final(final(self).cursor()) == *final(old(self).cursor()),
    {
        self.read_buf.initialized_mut()
    }

    /// The whole unfilled part, made defined first.
    pub fn initialize_unfilled(&mut self) -> (r: &mut [u8])
        requires
            old(self).cursor().wf(),
        ensures
            r@ == old(self).cursor()@.initialize_unfilled().unfilled(
                old(self).cursor()@.remaining(),
            ),
            final(r)@.len() == r@.len() ==> final(self).cursor().wf() && final(self).cursor()@
                == old(self).cursor()@.initialize_unfilled().write_unfilled(final(r)@),
            *final(final(self).cursor()) == *final(old(self).cursor()),
    {
        self.read_buf.initialize_unfilled()
    }

    /// The first `n` bytes of the unfilled part, made defined first.
    pub fn initialize_unfilled_to(&mut self, n: usize) -> (r: &mut [u8])
        requires
            old(self).cursor().wf(),
            old(self).cursor()@.can_initialize_unfilled_to(n as nat),
        ensures
            r@ == old(self).cursor()@.initialize_unfilled_to(n as nat).unfilled(n as nat),
            final(r)@.len() == r@.len() ==> final(self).cursor().wf() && final(self).cursor()@
                == old(self).cursor()@.initialize_unfilled_to(n as nat).write_unfilled(final(r)@),
            *final(final(self).cursor()) == *final(old(self).cursor()),
    {
        self.read_buf.initialize_unfilled_to(n)
    }

    /// Makes the filled part empty.
    pub fn clear(&mut self)
        requires
            old(self).cursor().wf(),
        ensures
            final(self).cursor().wf(),
            final(self).cursor()@ == old(self).cursor()@.clear(),
            *final(final(self).cursor()) == *final(old(self).cursor()),
    {
        self.read_buf.clear()
    }

    /// Moves the filled mark forward by `n`, over bytes that are initialized.
    pub fn add_filled(&mut self, n: usize)
        requires
            old(self).cursor().wf(),
            old(self).cursor()@.can_add_filled(n as nat),
        ensures
            final(self).cursor().wf(),
            final(self).cursor()@ == old(self).cursor()@.add_filled(n as nat),
            *final(final(self).cursor()) == *final(old(self).cursor()),
    {
        self.read_buf.add_filled(n)
    }

    /// Moves the filled mark to `n`, within the initialized part.
    pub fn set_filled(&mut self, n: usize)
        requires
            old(self).cursor().wf(),
            old(self).cursor()@.can_set_filled(n as nat),
        ensures
            final(self).cursor().wf(),
            final(self).cursor()@ == old(self).cursor()@.set_filled(n as nat),
            *final(final(self).cursor()) == *final(old(self).cursor()),
    {
        self.read_buf.set_filled(n)
    }

    /// Writes `buf` behind the filled part and counts it as filled.
    pub fn append(&mut self, buf: &[u8])
        requires
            old(self).cursor().wf(),
            old(self).cursor()@.can_append(buf@),
        ensures
            final(self).cursor().wf(),
            final(self).cursor()@ == old(self).cursor()@.append(buf@),
            *final(final(self).cursor()) == *final(old(self).cursor()),
    {
        self.read_buf.append(buf)
    }
}

impl<'a, S: SpareBytes> ReadBufRef<'a, S> {
    /// The part of the region that is not initialized.
    pub fn uninitialized_mut(&mut self) -> (r: &mut [MaybeUninit<u8>])
        requires
            old(self).cursor().wf(),
        ensures
            r@.len() == old(self).cursor()@.capacity - old(self).cursor()@.initialized.len(),
            final(self).cursor().wf(),
            final(self).cursor()@ == old(self).cursor()@,
            *final(final(self).cursor()) == *final(old(self).cursor()),
    {
        self.read_buf.uninitialized_mut()
    }
}

impl<'a, S: Bytes> Deref for ReadBufRef<'a, S> {
    type Target = ReadBuf<S>;

    /// The cursor, for reading: a guard has the cursor's accessors.
    fn deref(&self) -> (r: &ReadBuf<S>)
        ensures
            *r == *self.cursor(),
    {
        &*self.read_buf
    }
}

} // verus!
