use cl_generic_read_buf::{Bytes, ReadArray, ReadBuf, ReadSlice, ReadVec};
use std::mem::MaybeUninit;

/// The marks stay in order through a run of operations, and the
/// initialized mark never moves back.
#[test]
fn marks_stay_in_order() {
    let mut rbuf = ReadArray::<8>::new_uninit_array();
    let mut last_init = rbuf.initialized_len();
    let mut check = |rbuf: &ReadArray<8>| {
        assert!(rbuf.filled_len() <= rbuf.initialized_len());
        assert!(rbuf.initialized_len() <= rbuf.capacity());
        assert_eq!(rbuf.capacity(), 8);
        assert!(rbuf.initialized_len() >= last_init);
        last_init = rbuf.initialized_len();
    };
    check(&rbuf);
    rbuf.append(&[1, 2, 3]);
    check(&rbuf);
    rbuf.initialize_unfilled_to(2);
    check(&rbuf);
    rbuf.add_filled(1);
    check(&rbuf);
    rbuf.set_filled(2);
    check(&rbuf);
    rbuf.clear();
    check(&rbuf);
    rbuf.append(&[9]);
    check(&rbuf);
    rbuf.initialize_unfilled();
    check(&rbuf);
    rbuf.set_filled(8);
    check(&rbuf);
    rbuf.clear();
    check(&rbuf);
    assert_eq!(rbuf.initialized(), [9, 2, 3, 0, 0, 0, 0, 0]);
}

/// Bytes that become initialized on demand are zero, whatever the memory
/// held before.
#[test]
fn new_bytes_are_zero() {
    let mut buf = vec![255u8; 16];
    buf.truncate(4);
    let mut rbuf = ReadVec::from(buf);
    rbuf.set_filled(2);

    let unfilled = rbuf.initialize_unfilled_to(6);
    assert_eq!(unfilled, [255, 255, 0, 0, 0, 0]);

    assert_eq!(rbuf.initialized_len(), 8);
    assert_eq!(rbuf.initialized(), [255, 255, 255, 255, 0, 0, 0, 0]);
    assert_eq!(rbuf.filled(), [255, 255]);
}

/// Asking again for as much or less hands out what was left there and
/// zeroes nothing.
#[test]
fn second_initialize_keeps_content() {
    let mut rbuf = ReadArray::<8>::new_uninit_array();

    let first = rbuf.initialize_unfilled_to(6);
    assert_eq!(first, [0; 6]);
    first.copy_from_slice(&[1, 2, 3, 4, 5, 6]);

    let again = rbuf.initialize_unfilled_to(6);
    assert_eq!(again, [1, 2, 3, 4, 5, 6]);

    let fewer = rbuf.initialize_unfilled_to(3);
    assert_eq!(fewer, [1, 2, 3]);

    assert_eq!(rbuf.initialized_len(), 6);
    assert_eq!(rbuf.initialized(), [1, 2, 3, 4, 5, 6]);
}

/// What is appended is the new end of the filled part, once.
#[test]
fn append_round_trip() {
    let buf: Vec<u8> = Vec::with_capacity(8);
    let mut rbuf = ReadVec::from(buf);

    rbuf.append(&[1, 2, 3]);
    assert_eq!(rbuf.filled(), [1, 2, 3]);
    assert_eq!(rbuf.filled_len(), 3);
    assert_eq!(rbuf.initialized_len(), 3);

    rbuf.append(&[4, 5]);
    assert_eq!(rbuf.filled(), [1, 2, 3, 4, 5]);
    assert_eq!(&rbuf.filled()[3..], [4, 5]);
    assert_eq!(rbuf.filled_len(), 5);
    assert_eq!(rbuf.initialized_len(), 5);
    assert_eq!(rbuf.remaining(), 3);
}

/// Appending over bytes that are initialized already moves the initialized
/// mark only as far as the data reaches behind it.
#[test]
fn append_over_initialized() {
    let mut rbuf = ReadArray::from([7u8; 8]);
    rbuf.set_filled(2);

    rbuf.append(&[1, 2, 3]);
    assert_eq!(rbuf.filled_len(), 5);
    assert_eq!(rbuf.initialized_len(), 8);
    assert_eq!(rbuf.initialized(), [7, 7, 1, 2, 3, 7, 7, 7]);

    let mut part = ReadArray::<8>::new_uninit_array();
    part.initialize_unfilled_to(2);
    part.append(&[1, 2, 3, 4, 5]);
    assert_eq!(part.filled_len(), 5);
    assert_eq!(part.initialized_len(), 5);
    assert_eq!(part.filled(), [1, 2, 3, 4, 5]);
}

/// An empty append changes nothing.
#[test]
fn append_nothing() {
    let mut rbuf = ReadArray::from([5u8; 4]);
    rbuf.set_filled(4);
    rbuf.append(&[]);
    assert_eq!(rbuf.filled_len(), 4);
    assert_eq!(rbuf.initialized_len(), 4);
    assert_eq!(rbuf.remaining(), 0);
    assert_eq!(rbuf.filled(), [5; 4]);
}

/// Every operation works up to its bound.
#[test]
fn operations_at_their_bounds() {
    let mut rbuf = ReadArray::<4>::new_uninit_array();

    rbuf.set_filled(0);
    rbuf.add_filled(0);
    assert_eq!(rbuf.filled_len(), 0);

    let all = rbuf.initialize_unfilled_to(4);
    assert_eq!(all.len(), 4);
    assert_eq!(rbuf.initialized_len(), 4);

    rbuf.set_filled(4);
    assert_eq!(rbuf.remaining(), 0);
    assert_eq!(rbuf.initialize_unfilled_to(0).len(), 0);
    assert_eq!(rbuf.initialize_unfilled().len(), 0);

    rbuf.clear();
    rbuf.append(&[1, 2, 3, 4]);
    assert_eq!(rbuf.filled(), [1, 2, 3, 4]);
    assert_eq!(rbuf.remaining(), 0);
}

/// A cursor that was full and is cleared keeps its bytes.
#[test]
fn clear_then_reuse() {
    let mut rbuf = ReadArray::<16>::new_uninit_array();
    let bytes: Vec<u8> = (1..=16).collect();
    rbuf.append(&bytes);
    assert_eq!(rbuf.filled_len(), 16);

    rbuf.clear();

    assert_eq!(rbuf.filled_len(), 0);
    assert_eq!(rbuf.remaining(), 16);
    assert_eq!(rbuf.initialized(), &bytes[..]);

    rbuf.append(&[100]);
    assert_eq!(rbuf.filled(), [100]);
    assert_eq!(&rbuf.initialized()[1..], &bytes[1..]);
}

/// A cursor with no capacity is full from the start.
#[test]
fn no_capacity() {
    let mut rbuf = ReadArray::<0>::new_uninit_array();
    assert_eq!(rbuf.capacity(), 0);
    assert_eq!(rbuf.remaining(), 0);
    assert_eq!(rbuf.initialize_unfilled().len(), 0);
    rbuf.append(&[]);
    assert_eq!(rbuf.filled(), []);

    let mut empty = ReadVec::from(Vec::new());
    assert_eq!(empty.capacity(), 0);
    assert_eq!(empty.initialized_len(), 0);
    assert_eq!(empty.initialize_unfilled().len(), 0);
}

/// Writes through the mutable views land in the cursor.
#[test]
fn mutable_views() {
    let mut rbuf = ReadVec::from(vec![1u8, 2, 3, 4]);
    rbuf.set_filled(2);

    rbuf.filled_mut()[0] = 10;
    assert_eq!(rbuf.filled(), [10, 2]);
    assert_eq!(rbuf.initialized(), [10, 2, 3, 4]);

    rbuf.initialized_mut()[3] = 40;
    assert_eq!(rbuf.initialized(), [10, 2, 3, 40]);
    assert_eq!(rbuf.filled_len(), 2);

    rbuf.initialize_unfilled_to(2)[0] = 30;
    assert_eq!(rbuf.initialized(), [10, 2, 30, 40]);
}

/// The uninitialized part is what lies behind the initialized bytes, and
/// writing to it changes nothing of the cursor.
#[test]
fn uninitialized_part() {
    let mut buf = Vec::with_capacity(8);
    buf.extend_from_slice(&[1u8, 2, 3]);
    let mut rbuf = ReadVec::from(buf);

    let spare = rbuf.uninitialized_mut();
    assert_eq!(spare.len(), 5);
    spare[0].write(9);

    assert_eq!(rbuf.initialized_len(), 3);
    assert_eq!(rbuf.initialized(), [1, 2, 3]);
    assert_eq!(rbuf.filled_len(), 0);
    assert_eq!(rbuf.capacity(), 8);

    let mut bytes = [1u8, 2];
    let mut full = ReadSlice::from(&mut bytes[..]);
    assert_eq!(full.uninitialized_mut().len(), 0);
}

/// A cursor hands its store back when all that is initialized is filled.
#[test]
fn store_comes_back() {
    let mut rbuf = ReadVec::from(Vec::with_capacity(4));
    rbuf.append(&[1, 2, 3]);
    let store = rbuf.into_inner();
    assert_eq!(store.as_slice(), [1, 2, 3]);
    assert_eq!(store.capacity(), 4);

    let mut rbuf = ReadArray::from([4u8, 5]);
    rbuf.set_filled(2);
    let store = rbuf.into_inner();
    assert_eq!(store.as_slice(), [4, 5]);
    assert_eq!(store.capacity(), 2);
}

/// A cursor over a boxed region starts with nothing initialized.
#[test]
fn from_boxed_region() {
    let region: Box<[MaybeUninit<u8>]> = vec![MaybeUninit::new(7u8); 6].into_boxed_slice();
    let mut rbuf = ReadVec::from(region);

    assert_eq!(rbuf.filled_len(), 0);
    assert_eq!(rbuf.initialized_len(), 0);
    assert_eq!(rbuf.capacity(), 6);

    assert_eq!(rbuf.initialize_unfilled_to(2), [0, 0]);
    rbuf.append(&[1, 2, 3]);
    assert_eq!(rbuf.filled(), [1, 2, 3]);
    assert_eq!(rbuf.initialized_len(), 3);
}

/// A cursor over a borrowed region writes into that region.
#[test]
fn from_borrowed_region() {
    let mut region = [MaybeUninit::new(7u8); 4];
    let mut rbuf = ReadSlice::from(&mut region[..]);
    assert_eq!(rbuf.filled_len(), 0);
    assert_eq!(rbuf.initialized_len(), 0);
    assert_eq!(rbuf.capacity(), 4);
    assert_eq!(rbuf.initialize_unfilled_to(3), [0, 0, 0]);
    rbuf.append(&[5]);
    assert_eq!(rbuf.initialized(), [5, 0, 0]);

    let mut bytes = [1u8, 2, 3, 4];
    {
        let mut rbuf = ReadBuf::from(&mut bytes[..]);
        assert_eq!(rbuf.filled_len(), 0);
        assert_eq!(rbuf.initialized_len(), 4);
        assert_eq!(rbuf.capacity(), 4);
        assert_eq!(rbuf.initialized(), [1, 2, 3, 4]);
        rbuf.append(&[9, 8]);
        assert_eq!(rbuf.initialized(), [9, 8, 3, 4]);
    }
    assert_eq!(bytes, [9, 8, 3, 4]);
}

/// A cursor over a borrowed region grows into the part that was not
/// initialized.
#[test]
fn borrowed_region_grows() {
    let mut region = [MaybeUninit::new(7u8); 4];
    let mut rbuf = ReadSlice::from(&mut region[..]);
    assert_eq!(rbuf.uninitialized_mut().len(), 4);

    rbuf.append(&[1, 2, 3]);
    assert_eq!(rbuf.initialized(), [1, 2, 3]);
    assert_eq!(rbuf.filled(), [1, 2, 3]);
    assert_eq!(rbuf.uninitialized_mut().len(), 1);
    assert_eq!(rbuf.remaining(), 1);

    rbuf.filled_mut()[1] = 20;
    assert_eq!(rbuf.initialize_unfilled(), [0]);
    assert_eq!(rbuf.initialized(), [1, 20, 3, 0]);
    assert_eq!(rbuf.uninitialized_mut().len(), 0);
}

/// A guard moves the marks of the cursor it was lent.
#[test]
fn guard_forwards() {
    let mut rbuf = ReadArray::<8>::new_uninit_array();
    {
        let mut guard = rbuf.borrow();
        guard.append(&[1, 2, 3]);
        assert_eq!(guard.filled(), [1, 2, 3]);
        assert_eq!(guard.remaining(), 5);
        {
            let mut inner = guard.reborrow();
            inner.initialize_unfilled_to(2)[1] = 7;
            inner.add_filled(2);
            inner.filled_mut()[0] = 9;
        }
        assert_eq!(guard.filled_len(), 5);
        assert_eq!(guard.initialized_len(), 5);
        guard.set_filled(4);
        guard.initialized_mut()[4] = 8;
        assert_eq!(guard.initialize_unfilled().len(), 4);
        assert_eq!(guard.capacity(), 8);
    }
    assert_eq!(rbuf.filled(), [9, 2, 3, 0]);
    assert_eq!(rbuf.initialized(), [9, 2, 3, 0, 8, 0, 0, 0]);

    let mut guard = rbuf.borrow();
    guard.clear();
    assert_eq!(guard.filled_len(), 0);
    assert_eq!(rbuf.filled_len(), 0);
    assert_eq!(rbuf.initialized_len(), 8);
}

/// A guard of a heap cursor hands out the uninitialized part.
#[test]
fn guard_uninitialized_part() {
    let mut rbuf = ReadVec::from(Vec::with_capacity(4));
    let mut guard = rbuf.borrow();
    assert_eq!(guard.uninitialized_mut().len(), 4);
    guard.append(&[1]);
    assert_eq!(guard.uninitialized_mut().len(), 3);
}
