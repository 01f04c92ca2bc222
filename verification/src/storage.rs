//! The storage capability that a cursor is generic over.

use std::mem::MaybeUninit;
use vstd::prelude::*;

verus! {

/// A region of bytes of fixed size of which a leading part is defined.
///
/// The cursor reads and writes the defined part, and makes it longer by
/// writing behind it. It never asks a store for more room than its `limit`.
pub trait Bytes: Sized {
    /// The defined bytes, first to last.
    spec fn bytes(&self) -> Seq<u8>;

    /// The size of the region.
    spec fn limit(&self) -> nat;

    /// What a store keeps true of itself.
    spec fn wf(&self) -> bool;

    /// A valid store holds no more than its limit, and the limit is a `usize`.
    proof fn lemma_bounds(&self)
        requires
            self.wf(),
        ensures
            self.bytes().len() <= self.limit() <= usize::MAX,
    ;

    /// The size of the region.
    fn capacity(&self) -> (n: usize)
        requires
            self.wf(),
        ensures
            n == self.limit(),
    ;

    /// The defined bytes.
    fn as_slice(&self) -> (s: &[u8])
        requires
            self.wf(),
        ensures
            s@ == self.bytes(),
    ;

    /// The defined bytes, open to writing. What the caller leaves in the
    /// slice is what the store then holds, given that the slice has the
    /// length that it had, as every slice has.
    fn as_mut_slice(&mut self) -> (s: &mut [u8])
        requires
            old(self).wf(),
        ensures
            s@ == old(self).bytes(),
            final(self).limit() == old(self).limit(),
            final(s)@.len() == s@.len() ==> final(self).bytes() == final(s)@ && final(self).wf(),
    ;

    /// Makes the defined part longer by `additional` bytes of `value`.
    fn grow(&mut self, additional: usize, value: u8)
        requires
            old(self).wf(),
            old(self).bytes().len() + additional <= old(self).limit(),
        ensures
            final(self).wf(),
            final(self).limit() == old(self).limit(),
            final(self).bytes() == old(self).bytes() + Seq::new(additional as nat, |i: int| value),
    ;

    /// Makes the defined part longer by the bytes of `src`.
    fn extend_from_slice(&mut self, src: &[u8])
        requires
            old(self).wf(),
            old(self).bytes().len() + src@.len() <= old(self).limit(),
        ensures
            final(self).wf(),
            final(self).limit() == old(self).limit(),
            final(self).bytes() == old(self).bytes() + src@,
    ;
}

/// A store that can hand out the part of its region that is not defined,
/// as memory that may hold anything.
pub trait SpareBytes: Bytes {
    /// The part of the region behind the defined bytes. Nothing written to
    /// it changes what the store holds.
    fn spare_capacity_mut(&mut self) -> (s: &mut [MaybeUninit<u8>])
        requires
            old(self).wf(),
        ensures
            s@.len() == old(self).limit() - old(self).bytes().len(),
            final(self).wf(),
            final(self).limit() == old(self).limit(),
            final(self).bytes() == old(self).bytes(),
    ;
}

} // verus!
