//! A store in a borrowed slice, kept in a `SliceVec<u8>`.

use crate::read_buf::ReadBuf;
use crate::storage::{Bytes, SpareBytes};
use cl_generic_vec::SliceVec;
use std::mem::MaybeUninit;
use vstd::prelude::*;
use vstd::std_specs::convert::FromSpecImpl;

verus! {

/// A region of bytes that belongs to somebody else.
///
/// The bytes are kept in a `cl_generic_vec::SliceVec<u8>` over the borrowed
/// slice: its length is the number of defined bytes, its capacity the size
/// of the region. Nothing here is proved of that vector; what is believed of
/// it stands below.
#[verifier::external_body]
#[derive(Debug)]
pub struct SliceBytes<'a> {
    vec: SliceVec<'a, u8>,
}

/// The items of the vector, first to last.
pub uninterp spec fn slice_bytes(s: SliceBytes) -> Seq<u8>;

/// The length of the slice that the vector was made with.
pub uninterp spec fn slice_limit(s: SliceBytes) -> nat;

/// `SliceVec::full`: a vector over the slice whose items are the slice's
/// bytes, all of them.
#[verifier::external_body]
fn slice_full<'a>(buf: &'a mut [u8]) -> (s: SliceBytes<'a>)
    ensures
        slice_bytes(s) == old(buf)@,
        slice_limit(s) == old(buf)@.len(),
        slice_limit(s) <= usize::MAX,
{
    SliceBytes { vec: SliceVec::full(buf) }
}

/// `GenericVec::with_storage`: an empty vector over the given storage, whose
/// length is the capacity.
#[verifier::external_body]
fn slice_with_storage<'a>(buf: &'a mut [MaybeUninit<u8>]) -> (s: SliceBytes<'a>)
    ensures
        slice_bytes(s) == Seq::<u8>::empty(),
        slice_limit(s) == old(buf)@.len(),
        slice_limit(s) <= usize::MAX,
{
    SliceBytes { vec: SliceVec::with_storage(buf) }
}

/// `GenericVec::capacity`: for items of one byte, the length of the storage.
#[verifier::external_body]
fn slice_capacity(s: &SliceBytes) -> (n: usize)
    ensures
        n == slice_limit(*s),
{
    s.vec.capacity()
}

/// `GenericVec::as_slice`: the items of the vector.
#[verifier::external_body]
fn slice_as_slice<'b>(s: &'b SliceBytes) -> (r: &'b [u8])
    ensures
        r@ == slice_bytes(*s),
{
    s.vec.as_slice()
}

/// `GenericVec::as_mut_slice`: the items of the vector, in place. What is
/// written to the slice is written to the vector; the storage stays.
#[verifier::external_body]
fn slice_as_mut_slice<'b>(s: &'b mut SliceBytes) -> (r: &'b mut [u8])
    ensures
        r@ == slice_bytes(*old(s)),
        slice_bytes(*final(s)) == final(r)@,
        slice_limit(*final(s)) == slice_limit(*old(s)),
{
    s.vec.as_mut_slice()
}

/// `GenericVec::grow`: where the spare capacity is enough, nothing is
/// reserved, and `additional` clones of `value` are written behind the items.
#[verifier::external_body]
fn slice_grow(s: &mut SliceBytes, additional: usize, value: u8)
    requires
        slice_bytes(*old(s)).len() + additional <= slice_limit(*old(s)),
    ensures
        slice_bytes(*final(s)) == slice_bytes(*old(s)) + Seq::new(
            additional as nat,
            |i: int| value,
        ),
        slice_limit(*final(s)) == slice_limit(*old(s)),
{
    s.vec.grow(additional, value)
}

/// `GenericVec::extend_from_slice`: where the spare capacity is enough,
/// nothing is reserved, and the items of `src` are cloned in order behind
/// the items.
#[verifier::external_body]
fn slice_extend_from_slice(s: &mut SliceBytes, src: &[u8])
    requires
        slice_bytes(*old(s)).len() + src@.len() <= slice_limit(*old(s)),
    ensures
        slice_bytes(*final(s)) == slice_bytes(*old(s)) + src@,
        slice_limit(*final(s)) == slice_limit(*old(s)),
{
    s.vec.extend_from_slice(src)
}

/// `GenericVec::spare_capacity_mut`: the storage behind the items. The
/// items and the storage's length stay, whatever is written there.
#[verifier::external_body]
fn slice_spare_capacity_mut<'b>(s: &'b mut SliceBytes) -> (r: &'b mut [MaybeUninit<u8>])
    ensures
        r@.len() + slice_bytes(*old(s)).len() == slice_limit(*old(s)),
        slice_bytes(*final(s)) == slice_bytes(*old(s)),
        slice_limit(*final(s)) == slice_limit(*old(s)),
{
    s.vec.spare_capacity_mut()
}

impl<'a> Bytes for SliceBytes<'a> {
    closed spec fn bytes(&self) -> Seq<u8> {
        slice_bytes(*self)
    }

    closed spec fn limit(&self) -> nat {
        slice_limit(*self)
    }

    closed spec fn wf(&self) -> bool {
        slice_bytes(*self).len() <= slice_limit(*self) <= usize::MAX
    }

    proof fn lemma_bounds(&self) {
    }

    fn capacity(&self) -> (n: usize) {
        slice_capacity(self)
    }

    fn as_slice(&self) -> (s: &[u8]) {
        slice_as_slice(self)
    }

    fn as_mut_slice(&mut self) -> (s: &mut [u8]) {
        slice_as_mut_slice(self)
    }

    fn grow(&mut self, additional: usize, value: u8) {
        slice_grow(self, additional, value)
    }

    fn extend_from_slice(&mut self, src: &[u8]) {
        slice_extend_from_slice(self, src)
    }
}

impl<'a> SpareBytes for SliceBytes<'a> {
    fn spare_capacity_mut(&mut self) -> (s: &mut [MaybeUninit<u8>]) {
        slice_spare_capacity_mut(self)
    }
}

/// A cursor over a region that belongs to somebody else.
pub type ReadSlice<'a> = ReadBuf<SliceBytes<'a>>;

/// A cursor over a slice of bytes: all of them are initialized, none is
/// filled.
impl<'a> From<&'a mut [u8]> for ReadBuf<SliceBytes<'a>> {
    fn from(buf: &'a mut [u8]) -> (r: Self)
        ensures
            r.wf(),
            r@.filled == 0,
            r@.initialized == old(buf)@,
            r@.capacity == old(buf)@.len(),
    {
        ReadBuf::with_store(slice_full(buf))
    }
}

/// What `from` makes is stated by `from` itself.
impl<'a> FromSpecImpl<&'a mut [u8]> for ReadBuf<SliceBytes<'a>> {
    open spec fn obeys_from_spec() -> bool {
        false
    }

    open spec fn from_spec(buf: &'a mut [u8]) -> Self {
        arbitrary()
    }
}

/// A cursor over a slice of which nothing is initialized. Nothing is filled.
impl<'a> From<&'a mut [MaybeUninit<u8>]> for ReadBuf<SliceBytes<'a>> {
    fn from(buf: &'a mut [MaybeUninit<u8>]) -> (r: Self)
        ensures
            r.wf(),
            r@.filled == 0,
            r@.initialized == Seq::<u8>::empty(),
            r@.capacity == old(buf)@.len(),
    {
        ReadBuf::with_store(slice_with_storage(buf))
    }
}

/// What `from` makes is stated by `from` itself.
impl<'a> FromSpecImpl<&'a mut [MaybeUninit<u8>]> for ReadBuf<SliceBytes<'a>> {
    open spec fn obeys_from_spec() -> bool {
        false
    }

    open spec fn from_spec(buf: &'a mut [MaybeUninit<u8>]) -> Self {
        arbitrary()
    }
}

} // verus!
