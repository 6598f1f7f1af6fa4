//! Tests for descriptor chains, cache maintenance ranges, setup parsing
//! and hardware ownership.

use imxrt_usbd::cache::CacheCoherencyManager;
use imxrt_usbd::ownership::{claim, OwnershipError, OwnershipRegistry};
use imxrt_usbd::setup::parse_setup;
use imxrt_usbd::td::{build_chain, drain_chain, TdCompletion, TransferStatus, MAX_SEGMENT_SIZE};

#[test]
fn chain_splits_at_segment_size() {
    let chain = build_chain(0, 40000);
    assert_eq!(chain.len(), 3);
    assert_eq!(chain[0].length, MAX_SEGMENT_SIZE);
    assert_eq!(chain[1].length, MAX_SEGMENT_SIZE);
    assert_eq!(chain[2].length, 40000 - 2 * MAX_SEGMENT_SIZE);
    assert_eq!(chain[0].buffer_offset, 0);
    assert_eq!(chain[1].buffer_offset, MAX_SEGMENT_SIZE);
    assert_eq!(chain[2].buffer_offset, 2 * MAX_SEGMENT_SIZE);
    assert!(!chain[0].interrupt_on_complete);
    assert!(!chain[1].interrupt_on_complete);
    assert!(chain[2].interrupt_on_complete);
}

#[test]
fn zero_length_transfer_gets_one_descriptor() {
    let chain = build_chain(100, 0);
    assert_eq!(chain.len(), 1);
    assert_eq!(chain[0].length, 0);
    assert_eq!(chain[0].buffer_offset, 100);
    assert!(chain[0].interrupt_on_complete);
}

#[test]
fn drain_reports_full_completion() {
    let chain = build_chain(0, 100);
    let report = vec![TdCompletion { remaining: 0, halted: false }];
    let (bytes, status) = drain_chain(&chain, &report);
    assert_eq!(bytes, 100);
    assert_eq!(status, TransferStatus::Success);
}

#[test]
fn drain_reports_short_packet() {
    let chain = build_chain(0, 100);
    let report = vec![TdCompletion { remaining: 40, halted: false }];
    let (bytes, status) = drain_chain(&chain, &report);
    assert_eq!(bytes, 60);
    assert_eq!(status, TransferStatus::ShortPacket);
}

#[test]
fn drain_reports_halt_as_error() {
    let chain = build_chain(0, 100);
    let report = vec![TdCompletion { remaining: 100, halted: true }];
    let (bytes, status) = drain_chain(&chain, &report);
    assert_eq!(bytes, 0);
    assert_eq!(status, TransferStatus::Error);
}

#[test]
fn maintenance_ranges_cover_and_align() {
    let manager = CacheCoherencyManager::new(true);
    let range = manager.clean_for_device(0x1003, 10).unwrap();
    assert_eq!(range.start, 0x1000);
    assert_eq!(range.len, 32);
    assert!(range.start <= 0x1003);
    assert!(0x1003 + 10 <= range.start + range.len);

    let range = manager.invalidate_for_cpu(0x101F, 2).unwrap();
    assert_eq!(range.start, 0x1000);
    assert_eq!(range.len, 64);
}

#[test]
fn cacheless_core_needs_no_maintenance() {
    let manager = CacheCoherencyManager::new(false);
    assert!(manager.clean_for_device(0x1000, 64).is_none());
    assert!(manager.invalidate_for_cpu(0x1000, 64).is_none());
}

#[test]
fn setup_packet_decodes_little_endian() {
    let bytes = vec![0x80u8, 0x06, 0x00, 0x01, 0x34, 0x12, 0x40, 0x00];
    let p = parse_setup(&bytes).unwrap();
    assert_eq!(p.request_type, 0x80);
    assert_eq!(p.request, 0x06);
    assert_eq!(p.value, 0x0100);
    assert_eq!(p.index, 0x1234);
    assert_eq!(p.length, 0x0040);
}

#[test]
fn truncated_setup_packet_is_refused() {
    assert!(parse_setup(&vec![0u8; 7]).is_none());
    assert!(parse_setup(&vec![0u8; 9]).is_none());
    assert!(parse_setup(&vec![]).is_none());
}

#[test]
fn double_ownership_is_refused_at_construction() {
    let mut registry = OwnershipRegistry::new();
    let first = claim(&mut registry, 0x402E_0200, 0x400D_9000);
    assert!(first.is_ok());

    let second = claim(&mut registry, 0x402E_0200, 0x400DA000);
    assert_eq!(second.unwrap_err(), OwnershipError::AlreadyClaimed);

    let aliased = claim(&mut registry, 0x402E_0400, 0x402E_0400);
    assert_eq!(aliased.unwrap_err(), OwnershipError::AlreadyClaimed);

    let other = claim(&mut registry, 0x402E_0400, 0x400DA000);
    assert!(other.is_ok());
}
