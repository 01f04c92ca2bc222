//! The cursor and its operations.

use crate::model::ReadBufView;
use crate::storage::{Bytes, SpareBytes};
use std::mem::MaybeUninit;
use vstd::prelude::*;

verus! {

/// A region of bytes that is filled and initialized step by step.
///
/// ```text
/// [             capacity              ]
/// [ filled |         unfilled         ]
/// [    initialized    | uninitialized ]
/// ```
///
/// The store keeps the initialized bytes and the capacity; the cursor adds
/// the filled mark.
///
/// Some operations hand out a part of the region as a mutable slice. What
/// the caller leaves in that slice is what the cursor then holds there. A
/// slice cannot change its length, which the verifier does not know of
/// itself: the contracts of these operations say what the cursor is once
/// the slice is given back with the length that it had.
#[derive(Debug)]
pub struct ReadBuf<S: Bytes> {
    filled: usize,
    buf: S,
}

impl<S: Bytes> View for ReadBuf<S> {
    type V = ReadBufView;

    closed spec fn view(&self) -> ReadBufView {
        ReadBufView {
            filled: self.filled as nat,
            initialized: self.buf.bytes(),
            capacity: self.buf.limit(),
        }
    }
}

/// Copies `src` over `this`, byte by byte.
fn write_slice(this: &mut [u8], src: &[u8])
    requires
        old(this)@.len() == src@.len(),
    ensures
        final(this)@ == src@,
{
    let n: usize = src.len();
    let mut i: usize = 0;
    while i < n
        invariant
            n == src@.len(),
            this@.len() == n,
            i <= n,
            this@.take(i as int) == src@.take(i as int),
        decreases n - i,
    {
        this[i] = src[i];
        i = i + 1;
        assert(this@.take(i as int) =~= src@.take(i as int));
    }
    assert(this@ =~= this@.take(n as int));
    assert(src@ =~= src@.take(n as int));
}

impl<S: Bytes> ReadBuf<S> {
    /// The store is valid.
    pub closed spec fn store_wf(&self) -> bool {
        self.buf.wf()
    }

    /// The cursor is valid: its store is, and the marks are in order.
    pub open spec fn wf(&self) -> bool {
        self.store_wf() && self@.inv()
    }

    /// A cursor over `buf` with nothing filled.
    pub(crate) fn with_store(buf: S) -> (r: Self)
        requires
            buf.wf(),
        ensures
            r.wf(),
            r@ == (ReadBufView { filled: 0, initialized: buf.bytes(), capacity: buf.limit() }),
    {
        proof {
            buf.lemma_bounds();
        }
        ReadBuf { filled: 0, buf }
    }

    /// Gives the store back. Everything that is initialized must be filled:
    /// the content of the cursor is then all that the store holds.
    pub fn into_inner(self) -> (s: S)
        requires
            self.wf(),
            self@.filled == self@.initialized.len(),
        ensures
            s.wf(),
            s.bytes() == self@.initialized,
            s.limit() == self@.capacity,
    {
        self.buf
    }

    /// The total capacity of the region.
    pub fn capacity(&self) -> (n: usize)
        requires
            self.wf(),
        ensures
            n == self@.capacity,
    {
        self.buf.capacity()
    }

    /// The filled part.
    pub fn filled(&self) -> (r: &[u8])
        requires
            self.wf(),
        ensures
            r@ == self@.filled_bytes(),
    {
        let s: &[u8] = self.buf.as_slice();
        &s[0..self.filled]
    }

    /// The filled part, open to writing. The marks stay where they are.
    pub fn filled_mut(&mut self) -> (r: &mut [u8])
        requires
            old(self).wf(),
        ensures
            r@ == old(self)@.filled_bytes(),
            final(r)@.len() == r@.len() ==> final(self).wf() && final(self)@ == old(
                self,
            )@.write_filled(final(r)@),
    {
        let filled: usize = self.filled;
        let s: &mut [u8] = self.buf.as_mut_slice();
        let (head, _tail) = s.split_at_mut(filled);
        head
    }

    /// The initialized part, which begins with the filled part.
    pub fn initialized(&self) -> (r: &[u8])
        requires
            self.wf(),
        ensures
            r@ == self@.initialized,
    {
        self.buf.as_slice()
    }

    /// The initialized part, open to writing. The marks stay where they are.
    pub fn initialized_mut(&mut self) -> (r: &mut [u8])
        requires
            old(self).wf(),
        ensures
            r@ == old(self)@.initialized,
            final(r)@.len() == r@.len() ==> final(self).wf() && final(self)@ == old(
                self,
            )@.write_initialized(final(r)@),
    {
        self.buf.as_mut_slice()
    }

    /// The whole unfilled part, made defined first: the bytes of it that
    /// were not initialized are zero, the others are as they were. After
    /// this, all of the region is initialized.
    pub fn initialize_unfilled(&mut self) -> (r: &mut [u8])
        requires
            old(self).wf(),
        ensures
            r@ == old(self)@.initialize_unfilled().unfilled(old(self)@.remaining()),
            final(r)@.len() == r@.len() ==> final(self).wf() && final(self)@ == old(
                self,
            )@.initialize_unfilled().write_unfilled(final(r)@),
    {
        let n: usize = self.remaining();
        self.initialize_unfilled_to(n)
    }

    /// The first `n` bytes of the unfilled part, made defined first: the
    /// bytes of them that were not initialized are zero, the others are as
    /// they were. A byte is zeroed at most once: asking again for as many
    /// bytes or fewer writes nothing.
    ///
    /// No more than `remaining()` bytes can be asked for.
    pub fn initialize_unfilled_to(&mut self, n: usize) -> (r: &mut [u8])
        requires
            old(self).wf(),
            old(self)@.can_initialize_unfilled_to(n as nat),
        ensures
            r@ == old(self)@.initialize_unfilled_to(n as nat).unfilled(n as nat),
            final(r)@.len() == r@.len() ==> final(self).wf() && final(self)@ == old(
                self,
            )@.initialize_unfilled_to(n as nat).write_unfilled(final(r)@),
    {
        let extra_init: usize = self.buf.as_slice().len() - self.filled;
        // If not enough is initialized, write zeros behind it.
        if n > extra_init {
            let uninit: usize = n - extra_init;
            self.buf.grow(uninit, 0);
        }
        let filled: usize = self.filled;
        let s: &mut [u8] = self.buf.as_mut_slice();
        let (_head, tail) = s.split_at_mut(filled);
        let (unfilled, _rest) = tail.split_at_mut(n);
        proof {
            let v = old(self)@.initialize_unfilled_to(n as nat);
            assert(unfilled@ =~= v.unfilled(n as nat));
            assert(final(unfilled)@.len() == unfilled@.len() ==> _head@ + (final(unfilled)@
                + _rest@) =~= v.write_unfilled(final(unfilled)@).initialized);
        }
        unfilled
    }

    /// The number of bytes that are not filled yet.
    pub fn remaining(&self) -> (n: usize)
        requires
            self.wf(),
        ensures
            n == self@.remaining(),
    {
        self.capacity() - self.filled
    }

    /// Makes the filled part empty. The initialized bytes stay as they are.
    pub fn clear(&mut self)
        requires
            old(self).wf(),
        ensures
            final(self).wf(),
            final(self)@ == old(self)@.clear(),
    {
        self.set_filled(0);
    }

    /// Moves the filled mark forward by `n`. The mark cannot pass the
    /// initialized part, which stays as it is.
    pub fn add_filled(&mut self, n: usize)
        requires
            old(self).wf(),
            old(self)@.can_add_filled(n as nat),
        ensures
            final(self).wf(),
            final(self)@ == old(self)@.add_filled(n as nat),
    {
        proof {
            self.buf.lemma_bounds();
        }
        self.set_filled(self.filled + n);
    }

    /// Moves the filled mark to `n`, forward or back. The mark cannot pass
    /// the initialized part, which stays as it is.
    pub fn set_filled(&mut self, n: usize)
        requires
            old(self).wf(),
            old(self)@.can_set_filled(n as nat),
        ensures
            final(self).wf(),
            final(self)@ == old(self)@.set_filled(n as nat),
    {
        self.filled = n;
    }

    /// Writes `buf` behind the filled part and counts it as filled. The
    /// initialized part grows as far as `buf` reaches behind it.
    ///
    /// No more than `remaining()` bytes can be appended.
    pub fn append(&mut self, buf: &[u8])
        requires
            old(self).wf(),
            old(self)@.can_append(buf@),
        ensures
            final(self).wf(),
            final(self)@ == old(self)@.append(buf@),
    {
        proof {
            self.buf.lemma_bounds();
        }
        let len: usize = buf.len();
        let filled: usize = self.filled;
        let extra_init: usize = self.buf.as_slice().len() - filled;
        // The part of `buf` that lands on bytes which are initialized already.
        let over: usize = if len < extra_init {
            len
        } else {
            extra_init
        };
        if over > 0 {
            let s: &mut [u8] = self.buf.as_mut_slice();
            let (_head, tail) = s.split_at_mut(filled);
            let (dst, _rest) = tail.split_at_mut(over);
            write_slice(dst, &buf[0..over]);
        }
        // The rest makes the initialized part longer.
        if over < len {
            self.buf.extend_from_slice(&buf[over..len]);
        }
        self.filled = filled + len;
        assert(self@.initialized =~= old(self)@.append(buf@).initialized);
    }

    /// The number of filled bytes.
    pub fn filled_len(&self) -> (n: usize)
        ensures
            n == self@.filled,
    {
        self.filled
    }

    /// The number of initialized bytes.
    pub fn initialized_len(&self) -> (n: usize)
        requires
            self.wf(),
        ensures
            n == self@.initialized.len(),
    {
        self.buf.as_slice().len()
    }
}

impl<S: SpareBytes> ReadBuf<S> {
    /// The part of the region that is not initialized. Writing to it
    /// changes nothing of the cursor.
    pub fn uninitialized_mut(&mut self) -> (r: &mut [MaybeUninit<u8>])
        requires
            old(self).wf(),
        ensures
            r@.len() == old(self)@.capacity - old(self)@.initialized.len(),
            final(self).wf(),
            final(self)@ == old(self)@,
    {
        self.buf.spare_capacity_mut()
    }
}

} // verus!
