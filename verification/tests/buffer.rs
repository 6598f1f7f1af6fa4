//! Tests for the endpoint memory allocator and buffers.

use imxrt_usbd::buffer::Allocator;

#[test]
fn allocate_entire_buffer() {
    let region = vec![0u8; 32];
    let mut alloc = Allocator::new(region);
    let ptr = alloc.allocate(32);
    assert!(ptr.is_some());
    assert_eq!(ptr.unwrap().offset_of(), 0);

    let ptr = alloc.allocate(1);
    assert!(ptr.is_none());
}

#[test]
fn allocate_partial_buffers() {
    let region = vec![0u8; 32];
    let mut alloc = Allocator::new(region);

    let ptr = alloc.allocate(7);
    assert!(ptr.is_some());
    assert_eq!(ptr.unwrap().offset_of(), 32 - 7);

    let ptr = alloc.allocate(7);
    assert!(ptr.is_some());
    assert_eq!(ptr.unwrap().offset_of(), 32 - 14);

    let ptr = alloc.allocate(19);
    assert!(ptr.is_none());
}

#[test]
fn allocate_empty() {
    let mut alloc = Allocator::empty();
    assert!(alloc.allocate(1).is_none());
}

#[test]
fn accepted_sizes_never_exceed_region() {
    let mut alloc = Allocator::new(vec![0u8; 32]);
    let mut accepted = 0usize;
    for request in [10usize, 10, 10, 10, 2, 1] {
        if let Some(b) = alloc.allocate(request) {
            let mut probe = b;
            assert_eq!(probe.len(), request);
            accepted += request;
            assert!(probe.as_ptr_mut() + request <= 32);
        }
    }
    // 10 + 10 + 10 succeed, the fourth 10 fails, 2 fills the region, 1 fails.
    assert_eq!(accepted, 32);
    assert!(accepted <= 32);
}

#[test]
fn exhaustion_is_monotonic_for_larger_requests() {
    let mut alloc = Allocator::new(vec![0u8; 16]);
    assert!(alloc.allocate(12).is_some());
    // 4 bytes remain: a request of 5 fails, and so does every later
    // request at least that large.
    assert!(alloc.allocate(5).is_none());
    assert!(alloc.allocate(6).is_none());
    assert!(alloc.allocate(5).is_none());
    // A smaller request may still succeed; the free pointer only moved down.
    assert!(alloc.allocate(4).is_some());
    assert!(alloc.allocate(1).is_none());
}

#[test]
fn volatile_round_trip_preserves_bytes() {
    let mut alloc = Allocator::new(vec![0u8; 64]);
    let mut buffer = alloc.allocate(16).unwrap();

    let written: Vec<u8> = (1u8..=9).collect();
    let n = buffer.volatile_write(&written);
    assert_eq!(n, 9);

    let mut readback = vec![0u8; 9];
    let n = buffer.volatile_read(&mut readback);
    assert_eq!(n, 9);
    assert_eq!(readback, written);
}

#[test]
fn volatile_write_truncates_to_buffer_length() {
    let mut alloc = Allocator::new(vec![0u8; 8]);
    let mut buffer = alloc.allocate(4).unwrap();

    let long = vec![0xAAu8, 0xBB, 0xCC, 0xDD, 0xEE, 0xFF];
    let n = buffer.volatile_write(&long);
    assert_eq!(n, 4);

    let mut readback = vec![0u8; 6];
    let n = buffer.volatile_read(&mut readback);
    assert_eq!(n, 4);
    assert_eq!(&readback[..4], &long[..4]);
    assert_eq!(&readback[4..], &[0u8, 0]);
}
