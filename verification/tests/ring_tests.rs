use powerplayer::ring::RingBuffer;

#[test]
fn ring_delivers_in_fifo_order() {
    let mut ring = RingBuffer::with_capacity(4);
    for word in [1u32, 2, 3] {
        ring.try_push(word).unwrap();
    }
    assert_eq!(ring.try_pop(), Some(1));
    assert_eq!(ring.try_pop(), Some(2));
    ring.try_push(4).unwrap();
    ring.try_push(5).unwrap();
    assert_eq!(ring.try_pop(), Some(3));
    assert_eq!(ring.try_pop(), Some(4));
    assert_eq!(ring.try_pop(), Some(5));
    assert_eq!(ring.try_pop(), None);
}

#[test]
fn full_ring_rejects_and_keeps_contents() {
    let mut ring = RingBuffer::with_capacity(2);
    ring.try_push(10).unwrap();
    ring.try_push(11).unwrap();
    assert_eq!(ring.try_push(12), Err(12));
    assert_eq!(ring.vacant_len(), 0);
    assert_eq!(ring.occupied_len(), 2);
    assert_eq!(ring.try_pop(), Some(10));
    assert_eq!(ring.try_pop(), Some(11));
}

#[test]
fn clear_discards_queued_samples() {
    let mut ring = RingBuffer::with_capacity(8);
    for word in 0..5u32 {
        ring.try_push(word).unwrap();
    }
    ring.clear();
    assert_eq!(ring.occupied_len(), 0);
    assert_eq!(ring.vacant_len(), 8);
    assert_eq!(ring.try_pop(), None);
    ring.try_push(42).unwrap();
    assert_eq!(ring.try_pop(), Some(42));
}

#[test]
fn wraparound_preserves_order() {
    let mut ring = RingBuffer::with_capacity(3);
    for round in 0..10u32 {
        ring.try_push(round).unwrap();
        assert_eq!(ring.try_pop(), Some(round));
    }
}
