//! Tests for the bus adapter's protocol state machine.

use imxrt_usbd::bus::{
    BusAdapter, BusPhase, EndpointCompletion, Event, PollSnapshot, Speed, UsbError,
};
use imxrt_usbd::cache::CacheOp;
use imxrt_usbd::endpoint::{Direction, EndpointPhase, TransferType};
use imxrt_usbd::ownership::{claim, HardwareOwnership, OwnershipRegistry};
use imxrt_usbd::td::{TdCompletion, TransferStatus};

fn owned_core() -> HardwareOwnership {
    let mut registry = OwnershipRegistry::new();
    claim(&mut registry, 0x402E_0200, 0x400D_9000).unwrap()
}

fn adapter() -> BusAdapter {
    let mut bus = BusAdapter::new(owned_core(), vec![0u8; 1024], Speed::High, true);
    bus.configure_endpoint(0, Direction::Out, 64, TransferType::Control)
        .unwrap();
    bus.configure_endpoint(0, Direction::In, 64, TransferType::Control)
        .unwrap();
    bus
}

fn quiet() -> PollSnapshot {
    PollSnapshot { bus_reset: false, suspend: false, resume: false, setup: None, completions: vec![] }
}

#[test]
fn short_in_data_stage_is_short_packet_not_error() {
    let mut bus = adapter();

    // Host asks for 64 bytes of data IN.
    let setup = vec![0x80u8, 0x06, 0x00, 0x01, 0x00, 0x00, 0x40, 0x00];
    let mut snapshot = quiet();
    snapshot.setup = Some(setup);
    let events = bus.poll(&snapshot);
    assert_eq!(events.len(), 1);
    assert!(matches!(events[0], Event::SetupReceived { endpoint: 0, .. }));

    // The device stack only has 18 bytes to offer.
    let payload = vec![7u8; 18];
    assert_eq!(bus.write(0, &payload), Ok(18));

    // The host reads them and the transfer retires short.
    let mut snapshot = quiet();
    snapshot.completions = vec![EndpointCompletion {
        endpoint: 0,
        direction: Direction::In,
        report: vec![TdCompletion { remaining: 0, halted: false }],
        received: vec![],
    }];
    let events = bus.poll(&snapshot);
    assert_eq!(events.len(), 1);
    match events[0] {
        Event::TransferComplete { endpoint, direction, bytes, status } => {
            assert_eq!(endpoint, 0);
            assert_eq!(direction, Direction::In);
            assert_eq!(bytes, 18);
            assert_eq!(status, TransferStatus::ShortPacket);
            assert_ne!(status, TransferStatus::Error);
        }
        _ => panic!("expected a transfer completion"),
    }
}

#[test]
fn set_address_latches_until_status_stage_completes() {
    let mut bus = adapter();
    assert_eq!(bus.bus_phase(), BusPhase::Reset);
    assert_eq!(bus.address(), 0);

    // SET_ADDRESS(5): no data stage, status stage is IN.
    let setup = vec![0x00u8, 0x05, 0x05, 0x00, 0x00, 0x00, 0x00, 0x00];
    let mut snapshot = quiet();
    snapshot.setup = Some(setup);
    let events = bus.poll(&snapshot);
    assert_eq!(events.len(), 1);

    // Latched, not applied: hardware still answers to address 0.
    assert_eq!(bus.address(), 0);

    // The stack arms the zero-length status handshake.
    assert_eq!(bus.write(0, &vec![]), Ok(0));
    assert_eq!(bus.address(), 0);

    // Only the status-stage completion applies the address.
    let mut snapshot = quiet();
    snapshot.completions = vec![EndpointCompletion {
        endpoint: 0,
        direction: Direction::In,
        report: vec![TdCompletion { remaining: 0, halted: false }],
        received: vec![],
    }];
    bus.poll(&snapshot);
    assert_eq!(bus.address(), 5);
    assert_eq!(bus.bus_phase(), BusPhase::Addressed);
}

#[test]
fn bus_reset_disables_every_endpoint_and_clears_stalls() {
    let mut bus = adapter();
    bus.configure_endpoint(1, Direction::Out, 64, TransferType::Bulk)
        .unwrap();
    bus.configure_endpoint(2, Direction::In, 64, TransferType::Interrupt)
        .unwrap();
    bus.stall(1, Direction::Out).unwrap();
    bus.set_address(9);

    let mut snapshot = quiet();
    snapshot.bus_reset = true;
    let events = bus.poll(&snapshot);
    assert_eq!(events, vec![Event::Reset]);

    for ep in 0..8 {
        assert_eq!(bus.endpoint_phase(ep, Direction::Out), EndpointPhase::Disabled);
        assert_eq!(bus.endpoint_phase(ep, Direction::In), EndpointPhase::Disabled);
    }
    assert_eq!(bus.bus_phase(), BusPhase::PoweredDefault);
    assert_eq!(bus.address(), 0);

    // The pending address died with the reset: re-arming a status stage
    // applies nothing.
    bus.configure_endpoint(0, Direction::In, 64, TransferType::Control)
        .unwrap();
    assert_eq!(bus.address(), 0);
}

#[test]
fn stalled_endpoint_reports_stalled_not_would_block() {
    let mut bus = adapter();
    bus.configure_endpoint(2, Direction::In, 64, TransferType::Bulk)
        .unwrap();
    bus.configure_endpoint(2, Direction::Out, 64, TransferType::Bulk)
        .unwrap();
    bus.stall(2, Direction::In).unwrap();
    bus.stall(2, Direction::Out).unwrap();

    let err = bus.write(2, &vec![1, 2, 3]).unwrap_err();
    assert_eq!(err, UsbError::Stalled);
    assert_ne!(err, UsbError::WouldBlock);

    let mut dest = vec![0u8; 8];
    let err = bus.read(2, &mut dest).unwrap_err();
    assert_eq!(err, UsbError::Stalled);
    assert_ne!(err, UsbError::WouldBlock);

    // Still stalled until explicitly un-stalled.
    assert_eq!(bus.write(2, &vec![4]), Err(UsbError::Stalled));
    bus.unstall(2, Direction::In).unwrap();
    assert_eq!(bus.write(2, &vec![4]), Ok(1));
}

#[test]
fn write_in_flight_would_block() {
    let mut bus = adapter();
    bus.configure_endpoint(3, Direction::In, 64, TransferType::Bulk)
        .unwrap();
    assert_eq!(bus.write(3, &vec![1, 2]), Ok(2));
    assert_eq!(bus.write(3, &vec![3, 4]), Err(UsbError::WouldBlock));
}

#[test]
fn write_truncates_to_endpoint_buffer() {
    let mut bus = adapter();
    bus.configure_endpoint(3, Direction::In, 8, TransferType::Bulk)
        .unwrap();
    assert_eq!(bus.write(3, &vec![0u8; 20]), Ok(8));
}

#[test]
fn read_round_trip_through_completion() {
    let mut bus = adapter();
    bus.configure_endpoint(4, Direction::Out, 16, TransferType::Bulk)
        .unwrap();

    // Nothing received yet: the read arms the endpoint and would block.
    let mut dest = vec![0u8; 16];
    assert_eq!(bus.read(4, &mut dest), Err(UsbError::WouldBlock));

    // The host sends 5 bytes; hardware retires the chain with 11 left.
    let mut snapshot = quiet();
    snapshot.completions = vec![EndpointCompletion {
        endpoint: 4,
        direction: Direction::Out,
        report: vec![TdCompletion { remaining: 11, halted: false }],
        received: vec![0xA1, 0xA2, 0xA3, 0xA4, 0xA5],
    }];
    let events = bus.poll(&snapshot);
    assert_eq!(events.len(), 1);
    assert!(matches!(
        events[0],
        Event::TransferComplete { endpoint: 4, direction: Direction::Out, bytes: 5, status: TransferStatus::ShortPacket }
    ));

    // The read hands back exactly the bytes the host sent.
    let mut dest = vec![0u8; 16];
    assert_eq!(bus.read(4, &mut dest), Ok(5));
    assert_eq!(&dest[..5], &[0xA1, 0xA2, 0xA3, 0xA4, 0xA5]);
}

#[test]
fn halted_transfer_stalls_the_endpoint_until_cleared() {
    let mut bus = adapter();
    bus.configure_endpoint(5, Direction::In, 32, TransferType::Bulk)
        .unwrap();
    assert_eq!(bus.write(5, &vec![1u8; 4]), Ok(4));

    let mut snapshot = quiet();
    snapshot.completions = vec![EndpointCompletion {
        endpoint: 5,
        direction: Direction::In,
        report: vec![TdCompletion { remaining: 4, halted: true }],
        received: vec![],
    }];
    let events = bus.poll(&snapshot);
    assert!(matches!(
        events[0],
        Event::TransferComplete { endpoint: 5, status: TransferStatus::Error, .. }
    ));

    // The halt is surfaced, not retried: the endpoint stays stalled until
    // explicitly un-stalled, then may be re-armed.
    assert_eq!(bus.endpoint_phase(5, Direction::In), EndpointPhase::Stalled);
    assert_eq!(bus.write(5, &vec![2u8; 4]), Err(UsbError::Stalled));
    bus.unstall(5, Direction::In).unwrap();
    assert_eq!(bus.write(5, &vec![2u8; 4]), Ok(4));
}

#[test]
fn malformed_setup_stalls_the_control_endpoint() {
    let mut bus = adapter();
    let mut snapshot = quiet();
    snapshot.setup = Some(vec![0x80u8, 0x06, 0x00]);
    let events = bus.poll(&snapshot);
    assert_eq!(events, vec![Event::ProtocolError { endpoint: 0 }]);
    assert_eq!(bus.endpoint_phase(0, Direction::Out), EndpointPhase::Stalled);
    assert_eq!(bus.endpoint_phase(0, Direction::In), EndpointPhase::Stalled);
}

#[test]
fn configuration_fails_when_the_region_is_exhausted() {
    let hw = owned_core();
    let mut bus = BusAdapter::new(hw, vec![0u8; 100], Speed::Full, false);
    assert!(bus.configure_endpoint(0, Direction::Out, 64, TransferType::Control).is_ok());
    assert_eq!(
        bus.configure_endpoint(0, Direction::In, 64, TransferType::Control),
        Err(UsbError::OutOfMemory)
    );
}

#[test]
fn endpoint_numbers_beyond_the_core_are_invalid() {
    let mut bus = adapter();
    assert_eq!(
        bus.configure_endpoint(8, Direction::Out, 64, TransferType::Bulk),
        Err(UsbError::InvalidEndpoint)
    );
    assert_eq!(bus.write(8, &vec![1]), Err(UsbError::InvalidEndpoint));
    assert_eq!(bus.stall(8, Direction::In), Err(UsbError::InvalidEndpoint));
}

#[test]
fn unconfigured_endpoint_reports_not_configured() {
    let mut bus = adapter();
    assert_eq!(bus.write(5, &vec![1]), Err(UsbError::NotConfigured));
    let mut dest = vec![0u8; 4];
    assert_eq!(bus.read(5, &mut dest), Err(UsbError::NotConfigured));
}

#[test]
fn suspend_and_resume_are_surfaced_as_events() {
    let mut bus = adapter();
    let mut snapshot = quiet();
    snapshot.suspend = true;
    assert_eq!(bus.poll(&snapshot), vec![Event::Suspend]);

    let mut snapshot = quiet();
    snapshot.resume = true;
    assert_eq!(bus.poll(&snapshot), vec![Event::Resume]);

    // Endpoint configuration survives a suspend/resume pair.
    assert_eq!(bus.endpoint_phase(0, Direction::Out), EndpointPhase::Configured);
}

#[test]
fn writes_queue_clean_brackets_for_the_caller() {
    let mut bus = adapter();
    bus.configure_endpoint(1, Direction::In, 32, TransferType::Bulk)
        .unwrap();
    assert_eq!(bus.write(1, &vec![9u8; 10]), Ok(10));
    let maintenance = bus.take_maintenance();
    assert_eq!(maintenance.len(), 1);
    assert_eq!(maintenance[0].op, CacheOp::Clean);
    assert_eq!(maintenance[0].len, 10);
    assert!(bus.take_maintenance().is_empty());
}
