//! A store in an array that the cursor owns.

use crate::model::ReadBufView;
use crate::read_buf::ReadBuf;
use crate::storage::Bytes;
use vstd::prelude::*;
use vstd::std_specs::convert::FromSpecImpl;

verus! {

/// A region of `N` bytes held in place.
///
/// The first `len` bytes of the array are the defined ones. What the array
/// holds behind them is never shown: a byte that becomes defined is written
/// first.
#[derive(Debug)]
pub struct ArrayBytes<const N: usize> {
    data: [u8; N],
    len: usize,
}

impl<const N: usize> ArrayBytes<N> {
    /// A store with no byte defined.
    fn new() -> (s: Self)
        ensures
            s.wf(),
            s.bytes() == Seq::<u8>::empty(),
            s.limit() == N,
    {
        let s = ArrayBytes { data: [0u8; N], len: 0 };
        assert(s.bytes() =~= Seq::<u8>::empty());
        s
    }

    /// A store whose defined bytes are those of `array`.
    fn from_array(array: [u8; N]) -> (s: Self)
        ensures
            s.wf(),
            s.bytes() == array@,
            s.limit() == N,
    {
        let s = ArrayBytes { data: array, len: N };
        assert(s.bytes() =~= array@);
        s
    }
}

impl<const N: usize> Bytes for ArrayBytes<N> {
    closed spec fn bytes(&self) -> Seq<u8> {
        self.data@.take(self.len as int)
    }

    closed spec fn limit(&self) -> nat {
        N as nat
    }

    closed spec fn wf(&self) -> bool {
        self.len <= N
    }

    proof fn lemma_bounds(&self) {
    }

    fn capacity(&self) -> (n: usize) {
        N
    }

    fn as_slice(&self) -> (s: &[u8]) {
        let all: &[u8] = self.data.as_slice();
        &all[0..self.len]
    }

    fn as_mut_slice(&mut self) -> (s: &mut [u8]) {
        let len: usize = self.len;
        let all: &mut [u8] = &mut self.data;
        let (head, _tail) = all.split_at_mut(len);
        proof {
            assert(final(head)@.len() == head@.len() ==> (final(head)@ + _tail@).take(len as int)
                =~= final(head)@);
        }
        head
    }

    fn grow(&mut self, additional: usize, value: u8) {
        let start: usize = self.len;
        let mut i: usize = 0;
        while i < additional
            invariant
                start + additional <= N,
                i <= additional,
                self.len == start + i,
                self.data@.take(start as int) == old(self).data@.take(start as int),
                forall|j: int| start <= j < start + i ==> self.data@[j] == value,
            decreases additional - i,
        {
            self.data[self.len] = value;
            self.len = self.len + 1;
            i = i + 1;
            assert(self.data@.take(start as int) =~= old(self).data@.take(start as int));
        }
        assert(self.bytes() =~= old(self).bytes() + Seq::new(additional as nat, |i: int| value));
    }

    fn extend_from_slice(&mut self, src: &[u8]) {
        let start: usize = self.len;
        let n: usize = src.len();
        let mut i: usize = 0;
        while i < n
            invariant
                n == src@.len(),
                start + n <= N,
                i <= n,
                self.len == start + i,
                self.data@.take(start as int) == old(self).data@.take(start as int),
                forall|j: int| 0 <= j < i ==> self.data@[start + j] == src@[j],
            decreases n - i,
        {
            self.data[self.len] = src[i];
            self.len = self.len + 1;
            i = i + 1;
            assert(self.data@.take(start as int) =~= old(self).data@.take(start as int));
        }
        assert(self.bytes() =~= old(self).bytes() + src@);
    }
}

/// A cursor that holds its region in place.
pub type ReadArray<const N: usize> = ReadBuf<ArrayBytes<N>>;

impl<const N: usize> ReadBuf<ArrayBytes<N>> {
    /// A cursor over `N` bytes of which none is initialized and none filled.
    pub fn new_uninit_array() -> (r: Self)
        ensures
            r.wf(),
            r@ == (ReadBufView { filled: 0, initialized: Seq::<u8>::empty(), capacity: N as nat }),
    {
        ReadBuf::with_store(ArrayBytes::new())
    }
}

/// A cursor over an array of bytes: all of them are initialized, none is
/// filled.
impl<const N: usize> From<[u8; N]> for ReadBuf<ArrayBytes<N>> {
    fn from(buf: [u8; N]) -> (r: Self)
        ensures
            r.wf(),
            r@ == (ReadBufView { filled: 0, initialized: buf@, capacity: N as nat }),
    {
        ReadBuf::with_store(ArrayBytes::from_array(buf))
    }
}

/// What `from` makes is stated by `from` itself.
impl<const N: usize> FromSpecImpl<[u8; N]> for ReadBuf<ArrayBytes<N>> {
    open spec fn obeys_from_spec() -> bool {
        false
    }

    open spec fn from_spec(buf: [u8; N]) -> Self {
        arbitrary()
    }
}

} // verus!
