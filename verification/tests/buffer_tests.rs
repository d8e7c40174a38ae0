use orientation_telemetry::buffer::BufferFull;
use orientation_telemetry::buffer::EmptyBuffer;
use orientation_telemetry::buffer::TELEMETRY_CAPACITY;
use orientation_telemetry::buffer::TelemetryRingBuffer;

fn record(tag: u8) -> Vec<u8> {
    let mut v = Vec::new();
    for i in 0..16u8 {
        v.push(tag.wrapping_mul(16).wrapping_add(i));
    }
    v
}

#[test]
fn capacity_is_fixed() {
    let rb = TelemetryRingBuffer::new();
    assert_eq!(TELEMETRY_CAPACITY, 64);
    assert_eq!(rb.capacity(), 64);
}

#[test]
fn read_of_empty_buffer_is_the_idle_signal() {
    let mut rb = TelemetryRingBuffer::new();
    assert_eq!(rb.read(), Err(EmptyBuffer));
}

#[test]
fn round_trip_observes_exactly_the_committed_bytes() {
    let mut rb = TelemetryRingBuffer::new();
    let first = record(1);
    rb.reserve_exact(16).unwrap();
    rb.write_all(&first);
    rb.commit(16);

    // A second write before the release must not interleave with the first
    // record.
    let second = record(2);
    rb.reserve_exact(16).unwrap();
    rb.write_all(&second);
    rb.commit(16);

    let window = rb.read().unwrap();
    assert!(window.len() >= 16);
    assert_eq!(&window[0..16], &first[..]);
    rb.release(16);

    let window = rb.read().unwrap();
    assert_eq!(&window[0..16], &second[..]);
    rb.release(16);
    assert_eq!(rb.read(), Err(EmptyBuffer));
}

#[test]
fn read_is_idempotent_without_a_release() {
    let mut rb = TelemetryRingBuffer::new();
    let data = record(3);
    rb.reserve_exact(16).unwrap();
    rb.write_all(&data);
    rb.commit(16);

    let w1 = rb.read().unwrap();
    let w2 = rb.read().unwrap();
    assert_eq!(w1, w2);
    assert_eq!(&w1[..], &data[..]);
}

#[test]
fn reserve_beyond_free_space_fails_and_mutates_nothing() {
    let mut rb = TelemetryRingBuffer::new();
    for tag in 0..3u8 {
        rb.reserve_exact(16).unwrap();
        rb.write_all(&record(tag));
        rb.commit(16);
    }
    // 48 of 64 bytes are used; a 32-byte window cannot fit.
    assert_eq!(rb.reserve_exact(32), Err(BufferFull));

    // The failed reserve left the 48 queued bytes untouched.
    let window = rb.read().unwrap();
    assert_eq!(window.len(), 48);
    for tag in 0..3u8 {
        assert_eq!(&window[16 * tag as usize..16 * (tag as usize + 1)], &record(tag)[..]);
    }

    // A window that fits still succeeds afterwards.
    rb.reserve_exact(16).unwrap();
    rb.write_all(&record(9));
    rb.commit(16);
}

#[test]
fn partial_release_keeps_the_remainder_in_order() {
    let mut rb = TelemetryRingBuffer::new();
    let data = record(4);
    rb.reserve_exact(16).unwrap();
    rb.write_all(&data);
    rb.commit(16);

    rb.release(4);
    let window = rb.read().unwrap();
    assert_eq!(&window[..], &data[4..]);
}

#[test]
fn commit_zero_is_a_no_op_release_of_the_grant() {
    let mut rb = TelemetryRingBuffer::new();
    rb.reserve_exact(16).unwrap();
    rb.commit(0);
    assert_eq!(rb.read(), Err(EmptyBuffer));
    // The grant is gone, so a new reserve succeeds again.
    rb.reserve_exact(16).unwrap();
    rb.write_all(&record(5));
    rb.commit(16);
    let window = rb.read().unwrap();
    assert_eq!(window.len(), 16);
}

#[test]
fn wraparound_keeps_fifo_byte_order() {
    let mut rb = TelemetryRingBuffer::new();
    for tag in 0..4u8 {
        rb.reserve_exact(16).unwrap();
        rb.write_all(&record(tag));
        rb.commit(16);
    }
    // Full: drain two records, then write one more past the physical end.
    rb.release(16);
    let w = rb.read().unwrap();
    assert_eq!(&w[0..16], &record(1)[..]);
    rb.release(16);
    rb.reserve_exact(16).unwrap();
    rb.write_all(&record(4));
    rb.commit(16);

    let mut drained: Vec<u8> = Vec::new();
    while let Ok(w) = rb.read() {
        let n = w.len();
        drained.extend_from_slice(&w);
        rb.release(n);
    }
    let mut expected: Vec<u8> = Vec::new();
    for tag in 2..5u8 {
        expected.extend_from_slice(&record(tag));
    }
    assert_eq!(drained, expected);
}
