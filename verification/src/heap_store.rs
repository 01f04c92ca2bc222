//! A store on the heap, kept in a `HeapVec<u8>`.

use crate::read_buf::ReadBuf;
use crate::storage::{Bytes, SpareBytes};
use cl_generic_vec::HeapVec;
use std::mem::MaybeUninit;
use vstd::prelude::*;
use vstd::std_specs::convert::FromSpecImpl;

verus! {

/// A region of bytes on the heap.
///
/// The bytes are kept in a `cl_generic_vec::HeapVec<u8>`: its length is the
/// number of defined bytes, its capacity the size of the region. Nothing
/// here is proved of that vector; what is believed of it stands below.
#[verifier::external_body]
#[derive(Debug)]
pub struct HeapBytes {
    vec: HeapVec<u8>,
}

/// The items of the vector, first to last.
pub uninterp spec fn heap_bytes(s: HeapBytes) -> Seq<u8>;

/// The length of the storage that the vector was made with.
pub uninterp spec fn heap_limit(s: HeapBytes) -> nat;

/// `HeapVec::<u8>::from(Vec<u8>)`: the vector takes over the allocation of
/// `v`, so it holds the items of `v`, and its storage has the capacity of
/// `v`, which is a `usize` and not less than the length.
#[verifier::external_body]
fn heap_from_vec(v: Vec<u8>) -> (s: HeapBytes)
    ensures
        heap_bytes(s) == v@,
        heap_bytes(s).len() <= heap_limit(s) <= usize::MAX,
{
    HeapBytes { vec: HeapVec::from(v) }
}

/// `GenericVec::with_storage`: an empty vector over the given storage, whose
/// length is the capacity.
#[verifier::external_body]
fn heap_with_storage(b: Box<[MaybeUninit<u8>]>) -> (s: HeapBytes)
    ensures
        heap_bytes(s) == Seq::<u8>::empty(),
        heap_limit(s) == b@.len(),
        heap_limit(s) <= usize::MAX,
{
    HeapBytes { vec: HeapVec::with_storage(b) }
}

/// `GenericVec::capacity`: for items of one byte, the length of the storage.
#[verifier::external_body]
fn heap_capacity(s: &HeapBytes) -> (n: usize)
    ensures
        n == heap_limit(*s),
{
    s.vec.capacity()
}

/// `GenericVec::as_slice`: the items of the vector.
#[verifier::external_body]
fn heap_as_slice(s: &HeapBytes) -> (r: &[u8])
    ensures
        r@ == heap_bytes(*s),
{
    s.vec.as_slice()
}

/// `GenericVec::as_mut_slice`: the items of the vector, in place. What is
/// written to the slice is written to the vector; the storage stays.
#[verifier::external_body]
fn heap_as_mut_slice(s: &mut HeapBytes) -> (r: &mut [u8])
    ensures
        r@ == heap_bytes(*old(s)),
        heap_bytes(*final(s)) == final(r)@,
        heap_limit(*final(s)) == heap_limit(*old(s)),
{
    s.vec.as_mut_slice()
}

/// `GenericVec::grow`: where the spare capacity is enough, nothing is
/// reserved, and `additional` clones of `value` are written behind the items.
#[verifier::external_body]
fn heap_grow(s: &mut HeapBytes, additional: usize, value: u8)
    requires
        heap_bytes(*old(s)).len() + additional <= heap_limit(*old(s)),
    ensures
        heap_bytes(*final(s)) == heap_bytes(*old(s)) + Seq::new(additional as nat, |i: int| value),
        heap_limit(*final(s)) == heap_limit(*old(s)),
{
    s.vec.grow(additional, value)
}

/// `GenericVec::extend_from_slice`: where the spare capacity is enough,
/// nothing is reserved, and the items of `src` are cloned in order behind
/// the items.
#[verifier::external_body]
fn heap_extend_from_slice(s: &mut HeapBytes, src: &[u8])
    requires
        heap_bytes(*old(s)).len() + src@.len() <= heap_limit(*old(s)),
    ensures
        heap_bytes(*final(s)) == heap_bytes(*old(s)) + src@,
        heap_limit(*final(s)) == heap_limit(*old(s)),
{
    s.vec.extend_from_slice(src)
}

/// `GenericVec::spare_capacity_mut`: the storage behind the items. The
/// items and the storage's length stay, whatever is written there.
#[verifier::external_body]
fn heap_spare_capacity_mut(s: &mut HeapBytes) -> (r: &mut [MaybeUninit<u8>])
    ensures
        r@.len() + heap_bytes(*old(s)).len() == heap_limit(*old(s)),
        heap_bytes(*final(s)) == heap_bytes(*old(s)),
        heap_limit(*final(s)) == heap_limit(*old(s)),
{
    s.vec.spare_capacity_mut()
}

impl Bytes for HeapBytes {
    closed spec fn bytes(&self) -> Seq<u8> {
        heap_bytes(*self)
    }

    closed spec fn limit(&self) -> nat {
        heap_limit(*self)
    }

    closed spec fn wf(&self) -> bool {
        heap_bytes(*self).len() <= heap_limit(*self) <= usize::MAX
    }

    proof fn lemma_bounds(&self) {
    }

    fn capacity(&self) -> (n: usize) {
        heap_capacity(self)
    }

    fn as_slice(&self) -> (s: &[u8]) {
        heap_as_slice(self)
    }

    fn as_mut_slice(&mut self) -> (s: &mut [u8]) {
        heap_as_mut_slice(self)
    }

    fn grow(&mut self, additional: usize, value: u8) {
        heap_grow(self, additional, value)
    }

    fn extend_from_slice(&mut self, src: &[u8]) {
        heap_extend_from_slice(self, src)
    }
}

impl SpareBytes for HeapBytes {
    fn spare_capacity_mut(&mut self) -> (s: &mut [MaybeUninit<u8>]) {
        heap_spare_capacity_mut(self)
    }
}

/// A cursor that owns its region on the heap.
pub type ReadVec = ReadBuf<HeapBytes>;

/// A cursor over the allocation of a vector: the items of the vector are
/// initialized, its spare capacity is not. Nothing is filled.
impl From<Vec<u8>> for ReadBuf<HeapBytes> {
    fn from(buf: Vec<u8>) -> (r: Self)
        ensures
            r.wf(),
            r@.filled == 0,
            r@.initialized == buf@,
    {
        ReadBuf::with_store(heap_from_vec(buf))
    }
}

/// What `from` makes is stated by `from` itself.
impl FromSpecImpl<Vec<u8>> for ReadBuf<HeapBytes> {
    open spec fn obeys_from_spec() -> bool {
        false
    }

    open spec fn from_spec(buf: Vec<u8>) -> Self {
        arbitrary()
    }
}

/// A cursor over a boxed region of which nothing is initialized. Nothing is
/// filled.
impl From<Box<[MaybeUninit<u8>]>> for ReadBuf<HeapBytes> {
    fn from(buf: Box<[MaybeUninit<u8>]>) -> (r: Self)
        ensures
            r.wf(),
            r@.filled == 0,
            r@.initialized == Seq::<u8>::empty(),
            r@.capacity == buf@.len(),
    {
        ReadBuf::with_store(heap_with_storage(buf))
    }
}

/// What `from` makes is stated by `from` itself.
impl FromSpecImpl<Box<[MaybeUninit<u8>]>> for ReadBuf<HeapBytes> {
    open spec fn obeys_from_spec() -> bool {
        false
    }

    open spec fn from_spec(buf: Box<[MaybeUninit<u8>]>) -> Self {
        arbitrary()
    }
}

} // verus!
