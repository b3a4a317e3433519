use leyline::buffer::RingBuffer;

#[test]
fn test_ring_buffer_basic() {
    let storage = vec![0u8; 1024];
    let mut rb = RingBuffer::new(storage, 1024);

    assert_eq!(rb.available_write(), 1023);
    assert_eq!(rb.available_read(), 0);

    let data = [1, 2, 3, 4, 5];
    let written = rb.write(&data);
    assert_eq!(written, 5);
    assert_eq!(rb.available_read(), 5);

    let mut read_buf = [0u8; 5];
    let read = rb.read(&mut read_buf);
    assert_eq!(read, 5);
    assert_eq!(read_buf, data);
}

#[test]
fn test_ring_buffer_wrap() {
    let storage = vec![0u8; 10];
    let mut rb = RingBuffer::new(storage, 10);

    rb.write(&[1, 2, 3, 4, 5, 6, 7]);
    let mut tmp = [0u8; 5];
    rb.read(&mut tmp);

    let written = rb.write(&[8, 9, 10, 11, 12, 13]);
    assert_eq!(written, 6);
    assert_eq!(rb.available_read(), 8);

    let mut final_buf = [0u8; 8];
    rb.read(&mut final_buf);
    assert_eq!(final_buf, [6, 7, 8, 9, 10, 11, 12, 13]);
}

#[test]
fn ring_buffer_full_write_is_truncated_to_capacity() {
    let mut rb = RingBuffer::new(vec![0u8; 8], 8);
    let written = rb.write(&[1, 2, 3, 4, 5, 6, 7, 8, 9, 10]);
    assert_eq!(written, 7);
    assert_eq!(rb.available_write(), 0);
    assert_eq!(rb.available_read(), 7);
    assert_eq!(rb.write(&[42]), 0);
    let mut out = [0u8; 10];
    assert_eq!(rb.read(&mut out), 7);
    assert_eq!(out, [1, 2, 3, 4, 5, 6, 7, 0, 0, 0]);
}

#[test]
fn ring_buffer_read_from_empty_leaves_destination() {
    let mut rb = RingBuffer::new(vec![0u8; 4], 4);
    let mut out = [9u8; 3];
    assert_eq!(rb.read(&mut out), 0);
    assert_eq!(out, [9, 9, 9]);
}

#[test]
fn ring_buffer_partial_read_keeps_rest_in_order() {
    let mut rb = RingBuffer::new(vec![0u8; 6], 6);
    assert_eq!(rb.write(&[10, 20, 30, 40]), 4);
    let mut first = [0u8; 2];
    assert_eq!(rb.read(&mut first), 2);
    assert_eq!(first, [10, 20]);
    assert_eq!(rb.write(&[50, 60, 70]), 3);
    assert_eq!(rb.available_read(), 5);
    assert_eq!(rb.available_read() + rb.available_write(), 5);
    let mut rest = [0u8; 6];
    assert_eq!(rb.read(&mut rest), 5);
    assert_eq!(rest, [30, 40, 50, 60, 70, 0]);
}

#[test]
fn ring_buffer_write_lands_in_storage_with_wrap() {
    let mut rb = RingBuffer::new(vec![0u8; 5], 5);
    assert_eq!(rb.write(&[1, 2, 3]), 3);
    let mut out = [0u8; 3];
    assert_eq!(rb.read(&mut out), 3);
    assert_eq!(rb.write(&[4, 5, 6, 7]), 4);
    assert_eq!(rb.get_ptr(), &[6, 7, 3, 4, 5]);
}

#[test]
fn ring_buffer_reset_empties_and_keeps_storage() {
    let mut rb = RingBuffer::new(vec![0u8; 4], 4);
    rb.write(&[1, 2]);
    rb.reset();
    assert_eq!(rb.available_read(), 0);
    assert_eq!(rb.available_write(), 3);
    assert_eq!(rb.get_ptr(), &[1, 2, 0, 0]);
    assert_eq!(rb.get_size(), 4);
}

#[test]
fn ring_buffer_rebase_moves_to_new_storage() {
    let mut rb = RingBuffer::new(vec![0u8; 4], 4);
    rb.write(&[1, 2]);
    rb.rebase(vec![7u8; 16], 12);
    assert_eq!(rb.get_size(), 12);
    assert_eq!(rb.available_read(), 0);
    assert_eq!(rb.available_write(), 11);
    assert_eq!(rb.get_ptr().len(), 16);
}

#[test]
fn ring_buffer_uses_only_first_size_bytes() {
    let mut rb = RingBuffer::new(vec![0u8; 8], 3);
    assert_eq!(rb.write(&[1, 2, 3, 4]), 2);
    assert_eq!(rb.get_ptr(), &[1, 2, 0, 0, 0, 0, 0, 0]);
}

#[test]
fn ring_buffer_of_size_zero_reads_nothing() {
    let mut rb = RingBuffer::new(Vec::new(), 0);
    let mut out = [5u8; 2];
    assert_eq!(rb.available_read(), 0);
    assert_eq!(rb.read(&mut out), 0);
    assert_eq!(out, [5, 5]);
}

#[test]
fn ring_buffer_positions_advance_around_the_ring() {
    let mut rb = RingBuffer::new(vec![0u8; 4], 4);
    assert_eq!(rb.write(&[1, 2, 3]), 3);
    let mut two = [0u8; 2];
    assert_eq!(rb.read(&mut two), 2);
    assert_eq!(two, [1, 2]);
    assert_eq!(rb.write(&[9, 8]), 2);
    assert_eq!(rb.get_ptr(), &[8, 2, 3, 9]);
    let mut three = [0u8; 3];
    assert_eq!(rb.read(&mut three), 3);
    assert_eq!(three, [3, 9, 8]);
    assert_eq!(rb.available_read(), 0);
}
