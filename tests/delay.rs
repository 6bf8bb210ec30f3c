use hexodsp::delay::DelayBuffer;

#[test]
fn impulse_read_back_after_feeds() {
    for n in 1..8usize {
        let mut b: DelayBuffer<f32> = DelayBuffer::new_with_size(8, 0.0);
        b.feed(1.0);
        for _ in 0..(n - 1) {
            b.feed(0.0);
        }
        assert_eq!(b.at(n), 1.0);
        for m in 1..8usize {
            if m != n {
                assert_eq!(b.at(m), 0.0);
            }
        }
    }
}

#[test]
fn at_wraps_modulo_capacity() {
    let mut b: DelayBuffer<i32> = DelayBuffer::new_with_size(4, 0);
    for x in 1..=6 {
        b.feed(x);
    }
    assert_eq!(b.at(1), 6);
    assert_eq!(b.at(2), 5);
    assert_eq!(b.at(3), 4);
    assert_eq!(b.at(4), 3);
    assert_eq!(b.at(0), 3);
    assert_eq!(b.at(5), 6);
    assert_eq!(b.len(), 4);
}

#[test]
fn cubic_taps_around_offset() {
    let mut b: DelayBuffer<i32> = DelayBuffer::new_with_size(5, 0);
    for x in 1..=5 {
        b.feed(x);
    }
    assert_eq!(b.cubic_taps(2), (5, 4, 3, 2));
    assert_eq!(b.cubic_taps(0), (2, 1, 5, 4));
}

#[test]
fn reset_silences_buffer() {
    let mut b: DelayBuffer<f32> = DelayBuffer::new_with_size(3, 0.0);
    b.feed(0.5);
    b.feed(-0.5);
    b.reset();
    for n in 0..3 {
        assert_eq!(b.at(n), 0.0);
    }
    b.feed(2.0);
    assert_eq!(b.at(1), 2.0);
}

#[test]
fn default_capacity() {
    let b: DelayBuffer<f32> = DelayBuffer::new(0.0);
    assert_eq!(b.len(), 8 * 48000 * 5);
}

#[test]
fn single_slot_buffer() {
    let mut b: DelayBuffer<u8> = DelayBuffer::new_with_size(1, 0);
    b.feed(7);
    assert_eq!(b.at(1), 7);
    assert_eq!(b.at(0), 7);
    assert_eq!(b.cubic_taps(3), (7, 7, 7, 7));
}
