use netperf::double_buffer::{BufferError, DoubleBuffer, RawBuffer, CAPACITY};

#[test]
fn new_starts_with_slot_zero_writable() {
    let mut db = DoubleBuffer::new();
    let h = db.getForWrite().expect("fresh buffer must hand out the write slot");
    assert_eq!(h.idx, 0);
    db.release(h);
    let h = db.getForRead().expect("fresh buffer must hand out the read slot");
    assert_eq!(h.idx, 1);
    db.release(h);
}

#[test]
fn fresh_slots_are_empty() {
    let mut db = DoubleBuffer::new();
    let h = db.getForWrite().expect("write slot");
    assert_eq!(h.slot.len, 0);
    assert_eq!(h.slot.buffer.len(), CAPACITY);
    db.release(h);
}

#[test]
fn second_write_acquire_reports_busy() {
    let mut db = DoubleBuffer::new();
    let h = db.getForWrite().expect("first acquire succeeds");
    let second = db.getForWrite();
    assert!(matches!(second, Err(BufferError::Busy)));
    db.release(h);
    assert!(db.getForWrite().is_ok());
}

#[test]
fn slot_exclusivity_outstanding_handles_differ() {
    // write and read handles outstanding together never share a slot index,
    // wherever the designation currently points
    let mut db = DoubleBuffer::new();
    let hw = db.getForWrite().expect("write slot");
    let hr = db.getForRead().expect("read slot");
    assert_ne!(hw.idx, hr.idx);
    db.release(hw);
    db.release(hr);
    db.switch().expect("swap with both slots home");
    let hw = db.getForWrite().expect("write slot");
    let hr = db.getForRead().expect("read slot");
    assert_ne!(hw.idx, hr.idx);
    db.release(hr);
    db.release(hw);
}

#[test]
fn swap_reports_busy_while_handle_outstanding() {
    let mut db = DoubleBuffer::new();
    let h = db.getForWrite().expect("write slot");
    assert!(matches!(db.switch(), Err(BufferError::Busy)));
    db.release(h);
    assert!(db.switch().is_ok());
}

#[test]
fn swap_parity_restores_designation() {
    // swap(); swap(); is the identity on the write designation
    let mut db = DoubleBuffer::new();
    db.switch().expect("first swap");
    db.switch().expect("second swap");
    let h = db.getForWrite().expect("write slot");
    assert_eq!(h.idx, 0);
    db.release(h);
}

#[test]
fn single_swap_toggles_designation() {
    let mut db = DoubleBuffer::new();
    db.switch().expect("swap");
    let h = db.getForWrite().expect("write slot");
    assert_eq!(h.idx, 1);
    db.release(h);
}

#[test]
fn data_fidelity_written_bytes_reach_reader() {
    // bytes written through the write handle and the visible length are
    // exactly what the read handle observes after the next swap
    let mut db = DoubleBuffer::new();
    let mut h = db.getForWrite().expect("write slot");
    let payload: Vec<u8> = vec![7u8, 13, 42, 0, 255];
    h.slot.write_bytes(&payload);
    db.release(h);
    db.switch().expect("swap");
    let h = db.getForRead().expect("read slot");
    assert_eq!(h.slot.len, 5);
    assert_eq!(&h.slot.buffer[..5], &payload[..]);
    db.release(h);
}

#[test]
fn write_bytes_replaces_previous_length() {
    let mut buf = RawBuffer::default();
    buf.write_bytes(&[1u8, 2, 3, 4, 5, 6, 7, 8]);
    assert_eq!(buf.len, 8);
    buf.write_bytes(&[9u8, 9]);
    assert_eq!(buf.len, 2);
    assert_eq!(&buf.buffer[..2], &[9u8, 9]);
}

#[test]
fn write_bytes_full_capacity() {
    let mut buf = RawBuffer::default();
    let data: Vec<u8> = vec![0xabu8; CAPACITY];
    buf.write_bytes(&data);
    assert_eq!(buf.len, CAPACITY);
    assert!(buf.buffer.iter().all(|&b| b == 0xab));
}
