use cl_generic_read_buf::ReadVec;

/// A cursor made from a vector has the vector's items initialized.
#[test]
fn read_vec_new() {
    let buf = vec![0; 16];
    let rbuf = ReadVec::from(buf);

    assert_eq!(rbuf.filled_len(), 0);
    assert_eq!(rbuf.initialized_len(), 16);
    assert_eq!(rbuf.capacity(), 16);
    assert_eq!(rbuf.remaining(), 16);
}

/// A cursor made from an empty vector with capacity has nothing initialized.
#[test]
fn read_vec_uninit() {
    let buf = Vec::with_capacity(16);
    let rbuf = ReadVec::from(buf);

    assert_eq!(rbuf.filled_len(), 0);
    assert_eq!(rbuf.initialized_len(), 0);
    assert_eq!(rbuf.capacity(), 16);
    assert_eq!(rbuf.remaining(), 16);
}

#[test]
fn read_vec_initialize_unfilled() {
    let buf = Vec::with_capacity(16);
    let mut rbuf = ReadVec::from(buf);

    rbuf.initialize_unfilled();

    assert_eq!(rbuf.initialized_len(), 16);
}

#[test]
fn read_vec_initialize_unfilled_to() {
    let buf = Vec::with_capacity(16);
    let mut rbuf = ReadVec::from(buf);

    rbuf.initialize_unfilled_to(8);

    assert_eq!(rbuf.initialized_len(), 8);

    rbuf.initialize_unfilled_to(4);

    assert_eq!(rbuf.initialized_len(), 8);

    rbuf.set_filled(8);

    rbuf.initialize_unfilled_to(6);

    assert_eq!(rbuf.initialized_len(), 14);

    rbuf.initialize_unfilled_to(8);

    assert_eq!(rbuf.initialized_len(), 16);
}

#[test]
fn read_vec_add_filled() {
    let buf = vec![0; 16];
    let mut rbuf = ReadVec::from(buf);

    rbuf.add_filled(1);

    assert_eq!(rbuf.filled_len(), 1);
    assert_eq!(rbuf.remaining(), 15);
}

#[test]
fn read_vec_set_filled() {
    let buf = vec![0; 16];
    let mut rbuf = ReadVec::from(buf);

    rbuf.set_filled(16);

    assert_eq!(rbuf.filled_len(), 16);
    assert_eq!(rbuf.remaining(), 0);

    rbuf.set_filled(6);

    assert_eq!(rbuf.filled_len(), 6);
    assert_eq!(rbuf.remaining(), 10);
}

#[test]
fn read_vec_clear() {
    let buf = vec![255; 16];
    let mut rbuf = ReadVec::from(buf);

    rbuf.set_filled(16);

    assert_eq!(rbuf.filled_len(), 16);
    assert_eq!(rbuf.remaining(), 0);

    rbuf.clear();

    assert_eq!(rbuf.filled_len(), 0);
    assert_eq!(rbuf.remaining(), 16);

    assert_eq!(rbuf.initialized(), [255; 16]);
}

#[test]
fn read_vec_append() {
    let mut buf = vec![255; 16];
    buf.clear();
    let mut rbuf = ReadVec::from(buf);

    rbuf.append(&[0; 8]);

    assert_eq!(rbuf.initialized_len(), 8);
    assert_eq!(rbuf.filled_len(), 8);
    assert_eq!(rbuf.filled(), [0; 8]);

    rbuf.clear();

    rbuf.append(&[1; 16]);

    assert_eq!(rbuf.initialized_len(), 16);
    assert_eq!(rbuf.filled_len(), 16);
    assert_eq!(rbuf.filled(), [1; 16]);
}

#[test]
fn read_vec_filled_mut() {
    let buf = vec![0; 16];
    let mut rbuf = ReadVec::from(buf);

    rbuf.add_filled(8);

    let filled = rbuf.filled().to_vec();

    assert_eq!(&*filled, &*rbuf.filled_mut());
}
