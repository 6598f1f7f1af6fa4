//! The bus adapter: the driver's protocol state machine and capability set.
//!
//! A `BusAdapter` owns every endpoint control block, the endpoint memory
//! allocator and the hardware-ownership token, and exposes the operations a
//! chip-independent USB device stack drives: configure an endpoint, write
//! and read endpoint data, stall and un-stall, latch a device address, and
//! poll for events. Register work stays outside: the caller reads the
//! hardware into a [`PollSnapshot`] of plain values, hands it to [`BusAdapter::poll`],
//! and performs the cache-maintenance brackets the adapter queues up.
//!
//! The bus-level states move `PoweredDefault` to `Reset` (endpoint 0
//! configured after a bus reset) to `Addressed` (a latched address applied
//! by a status stage) to `Configured`, with suspend tracked orthogonally so
//! resume returns to the prior state. Control transfers on endpoint 0 move
//! through an explicit staged value, and a latched SET_ADDRESS value
//! reaches the hardware only when the status stage completes.

use vstd::prelude::*;
use crate::buffer::{copy_count, copy_into, Allocator};
use crate::cache::{CacheCoherencyManager, CacheOp, MaintenanceRequest};
use crate::endpoint::{
    delivered_prefix, Direction, EndpointPhase, EndpointState, TransferType, MAX_ENDPOINTS,
};
use crate::ownership::HardwareOwnership;
use crate::setup::{parse_setup, spec_parse_setup, SetupPacket, SETUP_PACKET_LENGTH};
use crate::td::{
    clamp_report, remaining_total, spec_build_chain, spec_drain_status, TdCompletion,
    TransferStatus,
};

verus! {

/// Negotiated bus speed.
#[derive(Clone, Copy, PartialEq, Eq, Structural, Debug)]
pub enum Speed {
    /// 480 Mb/s.
    High,
    /// 12 Mb/s.
    Full,
}

/// Why a capability call could not do its work.
#[derive(Clone, Copy, PartialEq, Eq, Structural, Debug)]
pub enum UsbError {
    /// The endpoint number is beyond what the core supports.
    InvalidEndpoint,
    /// The endpoint is not configured.
    NotConfigured,
    /// The endpoint is stalled and must be un-stalled first; distinct from
    /// `WouldBlock`.
    Stalled,
    /// Nothing to do right now; retry after more hardware progress.
    WouldBlock,
    /// The endpoint memory region has no room for the requested buffer.
    OutOfMemory,
}

/// Bus-level protocol state.
#[derive(Clone, Copy, PartialEq, Eq, Structural, Debug)]
pub enum BusPhase {
    /// Powered, nothing negotiated yet.
    PoweredDefault,
    /// A bus reset was handled and endpoint 0 stands configured.
    Reset,
    /// The host's address was applied to hardware.
    Addressed,
    /// The host selected a configuration.
    Configured,
}

/// Staging of the control transfer in flight on endpoint 0.
#[derive(Clone, Copy, PartialEq, Eq, Structural, Debug)]
pub enum ControlStage {
    /// No control transfer underway; awaiting a setup packet.
    Idle,
    /// Host expects `requested` bytes of data from the device.
    DataIn {
        /// The setup packet's length word.
        requested: u16,
    },
    /// Host will send `requested` bytes of data to the device.
    DataOut {
        /// The setup packet's length word.
        requested: u16,
    },
    /// Awaiting the zero-length IN handshake.
    StatusIn,
    /// Awaiting the zero-length OUT handshake.
    StatusOut,
}

/// One discrete happening the device stack learns of from a poll.
#[derive(Clone, Copy, PartialEq, Eq, Structural, Debug)]
pub enum Event {
    /// The host reset the bus; every endpoint is disabled again.
    Reset,
    /// A setup packet arrived on the control endpoint.
    SetupReceived {
        /// The endpoint that received it; always the control endpoint.
        endpoint: usize,
        /// The decoded packet.
        packet: SetupPacket,
    },
    /// An armed transfer retired.
    TransferComplete {
        /// The endpoint the transfer ran on.
        endpoint: usize,
        /// The direction it ran in.
        direction: Direction,
        /// How many bytes it moved.
        bytes: usize,
        /// How it ended.
        status: TransferStatus,
    },
    /// A malformed setup packet arrived; the control endpoint was stalled.
    ProtocolError {
        /// The endpoint the malformed packet arrived on.
        endpoint: usize,
    },
    /// The host suspended the bus.
    Suspend,
    /// The host resumed the bus.
    Resume,
}

/// What the hardware completed for one endpoint-direction: the
/// per-descriptor completions it wrote back into the armed chain.
pub struct EndpointCompletion {
    /// The endpoint number.
    pub endpoint: usize,
    /// The direction whose transfer retired.
    pub direction: Direction,
    /// What hardware wrote into each descriptor, front to back.
    pub report: Vec<TdCompletion>,
    /// The bytes the hardware wrote into the endpoint buffer, read out
    /// after the invalidate bracket; meaningful for a device-bound
    /// transfer, empty for a host-bound one.
    pub received: Vec<u8>,
}

/// One poll's worth of hardware state, read out of the status registers by
/// the caller: which bus-level signals fired, any setup packet received,
/// and which armed transfers retired.
pub struct PollSnapshot {
    /// A bus reset was signaled.
    pub bus_reset: bool,
    /// A suspend was signaled.
    pub suspend: bool,
    /// A resume was signaled.
    pub resume: bool,
    /// The raw bytes of a setup packet received on endpoint 0 OUT.
    pub setup: Option<Vec<u8>>,
    /// The transfers that retired since the last poll.
    pub completions: Vec<EndpointCompletion>,
}

/// Index of one (endpoint, direction) pair in the control-block array.
pub open spec fn ep_index_spec(ep: int, dir: Direction) -> int {
    2 * ep + (if dir == Direction::In {
        1int
    } else {
        0int
    })
}

/// The control stage a setup packet moves endpoint 0 into: a data stage in
/// the packet's direction when it announces data, else straight to the
/// IN status stage.
pub open spec fn spec_stage_after_setup(p: SetupPacket) -> ControlStage {
    if p.length == 0 {
        ControlStage::StatusIn
    } else if p.spec_direction() == Direction::In {
        ControlStage::DataIn { requested: p.length }
    } else {
        ControlStage::DataOut { requested: p.length }
    }
}

/// The control stage after a completion on endpoint 0 in direction `dir`:
/// a data stage hands over to the opposite-direction status stage, a
/// status stage ends the transfer.
pub open spec fn spec_stage_after_completion(stage: ControlStage, dir: Direction) -> ControlStage {
    match stage {
        ControlStage::Idle => ControlStage::Idle,
        ControlStage::DataIn { .. } => if dir == Direction::In {
            ControlStage::StatusOut
        } else {
            stage
        },
        ControlStage::DataOut { .. } => if dir == Direction::Out {
            ControlStage::StatusIn
        } else {
            stage
        },
        ControlStage::StatusIn => if dir == Direction::In {
            ControlStage::Idle
        } else {
            stage
        },
        ControlStage::StatusOut => if dir == Direction::Out {
            ControlStage::Idle
        } else {
            stage
        },
    }
}

/// Whether a completion on endpoint 0 in direction `dir` finishes the
/// status stage of the control transfer.
pub open spec fn spec_is_status_completion(stage: ControlStage, dir: Direction) -> bool {
    ||| stage == ControlStage::StatusIn && dir == Direction::In
    ||| stage == ControlStage::StatusOut && dir == Direction::Out
}

/// The hardware-visible address once a status stage completes: the latched
/// value if one is pending, else unchanged.
pub open spec fn spec_applied_address(pending: Option<u8>, hw: u8) -> u8 {
    match pending {
        Some(a) => a,
        None => hw,
    }
}

/// The bus phase once a status stage completes: applying a latched address
/// moves a freshly reset bus to `Addressed`.
pub open spec fn spec_bus_after_status(bus: BusPhase, pending: Option<u8>) -> BusPhase {
    if pending is Some && bus == BusPhase::Reset {
        BusPhase::Addressed
    } else {
        bus
    }
}

/// The status reported for an IN data stage that moved `transferred` of
/// the `requested` bytes: an error passes through, fewer bytes than the
/// host asked for is a short packet, not an error.
pub open spec fn spec_control_in_status(
    requested: u16,
    transferred: int,
    ring: TransferStatus,
) -> TransferStatus {
    if ring == TransferStatus::Error {
        TransferStatus::Error
    } else if transferred < requested {
        TransferStatus::ShortPacket
    } else {
        ring
    }
}

/// The status carried by a completion event: endpoint 0's IN data stage is
/// judged against the setup packet's requested length, everything else
/// reports the descriptor ring's own status.
pub open spec fn spec_event_status(
    ep: int,
    stage: ControlStage,
    dir: Direction,
    bytes: int,
    ring: TransferStatus,
) -> TransferStatus {
    match stage {
        ControlStage::DataIn { requested } => if ep == 0 && dir == Direction::In {
            spec_control_in_status(requested, bytes, ring)
        } else {
            ring
        },
        _ => ring,
    }
}

/// The bytes a retired chain moved, after clamping the hardware's report.
pub open spec fn spec_completion_bytes(e: EndpointState, report: Seq<TdCompletion>) -> int {
    e.armed_total() - remaining_total(clamp_report(e.qh_chain(), report))
}

/// The ring status of a retired chain, after clamping the hardware's
/// report.
pub open spec fn spec_completion_ring(e: EndpointState, report: Seq<TdCompletion>) -> TransferStatus {
    spec_drain_status(clamp_report(e.qh_chain(), report))
}

/// How one reported completion moves the adapter, and what it emits: the
/// relation [`BusAdapter::handle_completion`] establishes between its pre-
/// and post-state, stated once so a poll that carries completions can be
/// held to the same step.
///
/// A completion for an unknown endpoint, an idle endpoint, or with a
/// report of the wrong shape changes nothing and emits nothing. A genuine
/// one retires the chain: the endpoint goes idle, a halt leaves it
/// stalled, the transferred count becomes available, a device-bound
/// completion lands its received bytes in the endpoint buffer and queues
/// the invalidate bracket, endpoint 0's control stage advances, and a
/// status-stage completion applies a latched address.
pub open spec fn spec_completion_step(
    pre: BusAdapter,
    post: BusAdapter,
    c: EndpointCompletion,
    ev: Option<Event>,
) -> bool {
    &&& c.endpoint >= MAX_ENDPOINTS ==> ev is None && post == pre
    &&& c.endpoint < MAX_ENDPOINTS ==> ({
        let i = ep_index_spec(c.endpoint as int, c.direction);
        let e = pre.endpoint(i);
        &&& !e.active() ==> ev is None && post == pre
        &&& e.active() && c.report@.len() != e.chain_len() ==> ev is None && post == pre
        &&& e.active() && c.report@.len() == e.chain_len() ==> ({
            let bytes = spec_completion_bytes(e, c.report@);
            let ring = spec_completion_ring(e, c.report@);
            &&& ev matches Some(v) && v == (Event::TransferComplete {
                endpoint: c.endpoint,
                direction: c.direction,
                bytes: bytes as usize,
                status: spec_event_status(
                    c.endpoint as int,
                    pre.control_stage_spec(),
                    c.direction,
                    bytes,
                    ring,
                ),
            })
            &&& !post.endpoint(i).active()
            &&& post.endpoint(i).phase() == (if ring == TransferStatus::Error {
                EndpointPhase::Stalled
            } else {
                e.phase()
            })
            &&& post.endpoint(i).available() == bytes
            &&& (c.direction == Direction::Out ==> post.endpoint(i).buffer_view() == copy_into(
                e.buffer_view(),
                delivered_prefix(c.received@, bytes),
            ))
            &&& (c.direction == Direction::In ==> post.endpoint(i).buffer_view()
                == e.buffer_view())
            &&& (c.direction == Direction::Out ==> post.maintenance_view()
                == pre.maintenance_view().push(
                MaintenanceRequest {
                    op: CacheOp::Invalidate,
                    offset: e.buffer_offset() as usize,
                    len: bytes as usize,
                },
            ))
            &&& (c.direction == Direction::In ==> post.maintenance_view()
                == pre.maintenance_view())
            &&& forall|j: int|
                0 <= j < 2 * MAX_ENDPOINTS && j != i ==> post.endpoint(j) == pre.endpoint(j)
            &&& post.control_stage_spec() == (if c.endpoint == 0 {
                spec_stage_after_completion(pre.control_stage_spec(), c.direction)
            } else {
                pre.control_stage_spec()
            })
            &&& c.endpoint == 0 && spec_is_status_completion(
                pre.control_stage_spec(),
                c.direction,
            ) ==> post.hardware_address_spec() == spec_applied_address(
                pre.pending_address_spec(),
                pre.hardware_address_spec(),
            ) && post.pending_address_spec() is None && post.bus_phase_spec()
                == spec_bus_after_status(pre.bus_phase_spec(), pre.pending_address_spec())
            &&& !(c.endpoint == 0 && spec_is_status_completion(
                pre.control_stage_spec(),
                c.direction,
            )) ==> post.hardware_address_spec() == pre.hardware_address_spec()
                && post.pending_address_spec() == pre.pending_address_spec()
                && post.bus_phase_spec() == pre.bus_phase_spec()
        })
    })
}

/// Orchestrates all endpoint states against the hardware: the single owner
/// of every mutable USB-facing state, driven from one logical context at a
/// time.
pub struct BusAdapter {
    /// One control block per (endpoint, direction); index
    /// [`ep_index_spec`].
    endpoints: Vec<EndpointState>,
    /// The endpoint memory arena.
    allocator: Allocator,
    /// The coherency manager configured for this core.
    cache: CacheCoherencyManager,
    /// The license to touch this core's register blocks.
    hw: HardwareOwnership,
    /// Bus-level protocol state.
    bus: BusPhase,
    /// Whether the bus is suspended; the phase underneath is kept.
    suspended: bool,
    /// Control-transfer staging on endpoint 0.
    ctrl: ControlStage,
    /// An address latched by SET_ADDRESS, not yet applied.
    pending_address: Option<u8>,
    /// The address the hardware currently answers to.
    hardware_address: u8,
    /// Negotiated speed.
    speed: Speed,
    /// Coherency brackets the caller still has to perform.
    maintenance: Vec<MaintenanceRequest>,
}

impl BusAdapter {
    /// The control block at index `i`.
    pub closed spec fn endpoint(&self, i: int) -> EndpointState {
        self.endpoints@[i]
    }

    /// Bus-level protocol state.
    pub closed spec fn bus_phase_spec(&self) -> BusPhase {
        self.bus
    }

    /// Whether the bus is suspended.
    pub closed spec fn suspended_spec(&self) -> bool {
        self.suspended
    }

    /// Control-transfer staging on endpoint 0.
    pub closed spec fn control_stage_spec(&self) -> ControlStage {
        self.ctrl
    }

    /// The latched, not yet applied device address.
    pub closed spec fn pending_address_spec(&self) -> Option<u8> {
        self.pending_address
    }

    /// The address the hardware currently answers to.
    pub closed spec fn hardware_address_spec(&self) -> u8 {
        self.hardware_address
    }

    /// Negotiated speed.
    pub closed spec fn speed_spec(&self) -> Speed {
        self.speed
    }

    /// Whether the core this adapter's coherency manager was configured
    /// for has a data cache.
    pub closed spec fn has_data_cache(&self) -> bool {
        self.cache.has_data_cache()
    }

    /// The construction-time configuration: the ownership token, the
    /// negotiated speed, and the data-cache setting. Every operation,
    /// a bus reset included, leaves these as construction set them.
    pub open spec fn same_config(self, other: BusAdapter) -> bool {
        &&& self.hardware_token() == other.hardware_token()
        &&& self.speed_spec() == other.speed_spec()
        &&& self.has_data_cache() == other.has_data_cache()
    }

    /// Unallocated bytes left in the endpoint memory region.
    pub closed spec fn free_space(&self) -> nat {
        self.allocator.free_ptr()
    }

    /// The coherency brackets queued for the caller.
    pub closed spec fn maintenance_view(&self) -> Seq<MaintenanceRequest> {
        self.maintenance@
    }

    /// Structural invariant: a full complement of well-formed control
    /// blocks over a well-formed arena.
    pub closed spec fn inv(&self) -> bool {
        &&& self.endpoints@.len() == 2 * MAX_ENDPOINTS
        &&& forall|i: int| 0 <= i < self.endpoints@.len() ==> (#[trigger] self.endpoints@[i]).wf()
        &&& self.allocator.wf()
    }

    /// Public face of the invariant.
    pub open spec fn wf(&self) -> bool {
        self.inv()
    }

    /// Build a bus adapter over an owned core: every endpoint disabled,
    /// the whole memory region free, the bus powered but silent.
    pub fn new(
        hw: HardwareOwnership,
        memory: Vec<u8>,
        speed: Speed,
        data_cache_present: bool,
    ) -> (r: BusAdapter)
        ensures
            r.wf(),
            forall|i: int|
                0 <= i < 2 * MAX_ENDPOINTS ==> (#[trigger] r.endpoint(i)).phase()
                    == EndpointPhase::Disabled && !r.endpoint(i).active() && r.endpoint(
                    i,
                ).available() == 0,
            r.bus_phase_spec() == BusPhase::PoweredDefault,
            !r.suspended_spec(),
            r.control_stage_spec() == ControlStage::Idle,
            r.pending_address_spec() is None,
            r.hardware_address_spec() == 0,
            r.speed_spec() == speed,
            r.free_space() == memory@.len(),
            r.maintenance_view() == Seq::<MaintenanceRequest>::empty(),
            r.has_data_cache() == data_cache_present,
            r.hardware_token() == hw,
    {
        let mut endpoints: Vec<EndpointState> = Vec::new();
        let mut i: usize = 0;
        while i < 2 * MAX_ENDPOINTS
            invariant
                i <= 2 * MAX_ENDPOINTS,
                endpoints@.len() == i,
                forall|j: int|
                    0 <= j < i ==> (#[trigger] endpoints@[j]).wf() && endpoints@[j].phase()
                        == EndpointPhase::Disabled && !endpoints@[j].active()
                        && endpoints@[j].available() == 0,
            decreases 2 * MAX_ENDPOINTS - i,
        {
            endpoints.push(EndpointState::disabled());
            i = i + 1;
        }
        BusAdapter {
            endpoints,
            allocator: Allocator::new(memory),
            cache: CacheCoherencyManager::new(data_cache_present),
            hw,
            bus: BusPhase::PoweredDefault,
            suspended: false,
            ctrl: ControlStage::Idle,
            pending_address: None,
            hardware_address: 0,
            speed,
            maintenance: Vec::new(),
        }
    }

    /// Configure one endpoint direction: carve its buffer out of the
    /// endpoint memory region and make it able to move data. Fails with
    /// `OutOfMemory`, changing nothing, when the region cannot cover the
    /// maximum packet size; configuring endpoint 0 completes reset
    /// handling, moving a powered bus to `Reset`.
    pub fn configure_endpoint(
        &mut self,
        ep: usize,
        dir: Direction,
        max_packet: u16,
        transfer_type: TransferType,
    ) -> (r: Result<(), UsbError>)
        requires
            old(self).wf(),
        ensures
            final(self).wf(),
            final(self).same_config(*old(self)),
            ep >= MAX_ENDPOINTS ==> r == Err::<(), UsbError>(UsbError::InvalidEndpoint)
                && *final(self) == *old(self),
            ep < MAX_ENDPOINTS ==> ((r is Ok) == (max_packet as nat <= old(self).free_space())),
            ep < MAX_ENDPOINTS && r is Err ==> *final(self) == *old(self) && r == Err::<
                (),
                UsbError,
            >(UsbError::OutOfMemory),
            ep < MAX_ENDPOINTS && r is Ok ==> ({
                let i = ep_index_spec(ep as int, dir);
                &&& final(self).endpoint(i).phase() == EndpointPhase::Configured
                &&& final(self).endpoint(i).max_packet() == max_packet
                &&& final(self).endpoint(i).transfer_type() == transfer_type
                &&& !final(self).endpoint(i).active()
                &&& final(self).endpoint(i).available() == 0
                &&& final(self).endpoint(i).buffer_view().len() == max_packet as nat
                &&& forall|j: int|
                    0 <= j < 2 * MAX_ENDPOINTS && j != i ==> final(self).endpoint(j) == old(self).endpoint(j)
                &&& final(self).free_space() == old(self).free_space() - max_packet as nat
                &&& final(self).bus_phase_spec() == (if ep == 0 && old(self).bus_phase_spec()
                    == BusPhase::PoweredDefault {
                    BusPhase::Reset
                } else {
                    old(self).bus_phase_spec()
                })
                &&& final(self).control_stage_spec() == old(self).control_stage_spec()
                &&& final(self).pending_address_spec() == old(self).pending_address_spec()
                &&& final(self).hardware_address_spec() == old(self).hardware_address_spec()
                &&& final(self).maintenance_view() == old(self).maintenance_view()
            }),
    {
        if ep >= MAX_ENDPOINTS {
            return Err(UsbError::InvalidEndpoint);
        }
        let idx = ep_index(ep, dir);
        proof {
            self.allocator.lemma_consumption_bounded();
        }
        let allocated = self.allocator.allocate(max_packet as usize);
        proof {
            if !old(self).allocator.can_allocate(max_packet as nat) {
                assert(allocated is None);
            }
        }
        match allocated {
            None => Err(UsbError::OutOfMemory),
            Some(buffer) => {
                self.endpoints[idx].configure(buffer, max_packet, transfer_type);
                if ep == 0 && matches!(self.bus, BusPhase::PoweredDefault) {
                    self.bus = BusPhase::Reset;
                }
                Ok(())
            },
        }
    }

    /// Accept up to a buffer's worth of `bytes` for transmission to the
    /// host on endpoint `ep` IN: copy them into the endpoint buffer, arm
    /// the descriptor chain, queue the clean bracket, and report how many
    /// bytes the transfer will carry. A stalled endpoint reports
    /// `Stalled`, distinct from `WouldBlock`; an endpoint whose previous
    /// transfer is still in flight reports `WouldBlock`.
    pub fn write(&mut self, ep: usize, bytes: &Vec<u8>) -> (r: Result<usize, UsbError>)
        requires
            old(self).wf(),
        ensures
            final(self).wf(),
            final(self).same_config(*old(self)),
            ep >= MAX_ENDPOINTS ==> r == Err::<usize, UsbError>(UsbError::InvalidEndpoint)
                && *final(self) == *old(self),
            ep < MAX_ENDPOINTS ==> ({
                let i = ep_index_spec(ep as int, Direction::In);
                let e = old(self).endpoint(i);
                &&& e.phase() == EndpointPhase::Stalled ==> r == Err::<usize, UsbError>(
                    UsbError::Stalled,
                ) && *final(self) == *old(self)
                &&& e.phase() == EndpointPhase::Disabled ==> r == Err::<usize, UsbError>(
                    UsbError::NotConfigured,
                ) && *final(self) == *old(self)
                &&& e.phase() == EndpointPhase::Configured && e.active() ==> r == Err::<
                    usize,
                    UsbError,
                >(UsbError::WouldBlock) && *final(self) == *old(self)
                &&& e.phase() == EndpointPhase::Configured && !e.active() ==> ({
                    let n = copy_count(e.buffer_view(), bytes@);
                    &&& r == Ok::<usize, UsbError>(n as usize)
                    &&& final(self).endpoint(i).active()
                    &&& final(self).endpoint(i).armed_total() == n
                    &&& final(self).endpoint(i).qh_chain() == spec_build_chain(
                        e.buffer_offset() as int,
                        n,
                    )
                    &&& final(self).endpoint(i).buffer_view() == copy_into(
                        e.buffer_view(),
                        bytes@,
                    )
                    &&& final(self).endpoint(i).phase() == EndpointPhase::Configured
                    &&& forall|j: int|
                        0 <= j < 2 * MAX_ENDPOINTS && j != i ==> final(self).endpoint(j) == old(self).endpoint(j)
                    &&& final(self).maintenance_view() == old(self).maintenance_view().push(
                        MaintenanceRequest {
                            op: CacheOp::Clean,
                            offset: e.buffer_offset() as usize,
                            len: n as usize,
                        },
                    )
                    &&& final(self).hardware_address_spec() == old(self).hardware_address_spec()
                    &&& final(self).pending_address_spec() == old(self).pending_address_spec()
                    &&& final(self).control_stage_spec() == old(self).control_stage_spec()
                    &&& final(self).bus_phase_spec() == old(self).bus_phase_spec()
                    &&& final(self).free_space() == old(self).free_space()
                })
            }),
    {
        if ep >= MAX_ENDPOINTS {
            return Err(UsbError::InvalidEndpoint);
        }
        let idx = ep_index(ep, Direction::In);
        let phase = self.endpoints[idx].phase_of();
        match phase {
            EndpointPhase::Stalled => Err(UsbError::Stalled),
            EndpointPhase::Disabled => Err(UsbError::NotConfigured),
            EndpointPhase::Configured => {
                if self.endpoints[idx].is_active() {
                    Err(UsbError::WouldBlock)
                } else {
                    let offset = self.endpoints[idx].buffer_base();
                    let accepted = self.endpoints[idx].arm_write(bytes);
                    self.maintenance.push(
                        MaintenanceRequest { op: CacheOp::Clean, offset, len: accepted },
                    );
                    Ok(accepted)
                }
            },
        }
    }

    /// Read completed bytes the host sent on endpoint `ep` OUT into
    /// `dest`, consuming them. With nothing available, reports
    /// `WouldBlock` and, if the endpoint is idle, arms it so the host can
    /// send. A stalled endpoint reports `Stalled`, distinct from
    /// `WouldBlock`.
    pub fn read(&mut self, ep: usize, dest: &mut Vec<u8>) -> (r: Result<usize, UsbError>)
        requires
            old(self).wf(),
        ensures
            final(self).wf(),
            final(self).same_config(*old(self)),
            ep >= MAX_ENDPOINTS ==> r == Err::<usize, UsbError>(UsbError::InvalidEndpoint)
                && *final(self) == *old(self) && *final(dest) == *old(dest),
            ep < MAX_ENDPOINTS ==> ({
                let i = ep_index_spec(ep as int, Direction::Out);
                let e = old(self).endpoint(i);
                &&& e.phase() == EndpointPhase::Stalled ==> r == Err::<usize, UsbError>(
                    UsbError::Stalled,
                ) && *final(self) == *old(self) && *final(dest) == *old(dest)
                &&& e.phase() == EndpointPhase::Disabled ==> r == Err::<usize, UsbError>(
                    UsbError::NotConfigured,
                ) && *final(self) == *old(self) && *final(dest) == *old(dest)
                &&& e.phase() == EndpointPhase::Configured && e.available() > 0 ==> ({
                    let n = if old(dest)@.len() <= e.available() {
                        old(dest)@.len() as int
                    } else {
                        e.available() as int
                    };
                    &&& r == Ok::<usize, UsbError>(n as usize)
                    &&& final(dest)@ == copy_into(old(dest)@, e.buffer_view())
                    &&& final(self).endpoint(i).available() == e.available() - n
                    &&& final(self).endpoint(i).phase() == EndpointPhase::Configured
                    &&& forall|j: int|
                        0 <= j < 2 * MAX_ENDPOINTS && j != i ==> final(self).endpoint(j) == old(self).endpoint(j)
                })
                &&& e.phase() == EndpointPhase::Configured && e.available() == 0 && e.active()
                    ==> r == Err::<usize, UsbError>(UsbError::WouldBlock) && *final(self) == *old(self) && *final(dest) == *old(dest)
                &&& e.phase() == EndpointPhase::Configured && e.available() == 0 && !e.active()
                    ==> r == Err::<usize, UsbError>(UsbError::WouldBlock) && *final(dest) == *old(dest) && final(self).endpoint(i).active() && final(self).endpoint(i).armed_total()
                    == e.buffer_view().len() && final(self).endpoint(i).qh_chain()
                    == spec_build_chain(
                    e.buffer_offset() as int,
                    e.buffer_view().len() as int,
                ) && final(self).endpoint(i).phase()
                    == EndpointPhase::Configured && forall|j: int|
                    0 <= j < 2 * MAX_ENDPOINTS && j != i ==> final(self).endpoint(j) == old(self).endpoint(j)
            }),
    {
        if ep >= MAX_ENDPOINTS {
            return Err(UsbError::InvalidEndpoint);
        }
        let idx = ep_index(ep, Direction::Out);
        let phase = self.endpoints[idx].phase_of();
        match phase {
            EndpointPhase::Stalled => Err(UsbError::Stalled),
            EndpointPhase::Disabled => Err(UsbError::NotConfigured),
            EndpointPhase::Configured => {
                if self.endpoints[idx].available_count() > 0 {
                    let n = self.endpoints[idx].read_into(dest);
                    Ok(n)
                } else if self.endpoints[idx].is_active() {
                    Err(UsbError::WouldBlock)
                } else {
                    self.endpoints[idx].arm_read();
                    Err(UsbError::WouldBlock)
                }
            },
        }
    }

    /// Stall one endpoint direction: halt its ring and mark it `Stalled`
    /// until explicitly un-stalled.
    pub fn stall(&mut self, ep: usize, dir: Direction) -> (r: Result<(), UsbError>)
        requires
            old(self).wf(),
        ensures
            final(self).wf(),
            final(self).same_config(*old(self)),
            ep >= MAX_ENDPOINTS ==> r == Err::<(), UsbError>(UsbError::InvalidEndpoint) && *final(self) == *old(self),
            ep < MAX_ENDPOINTS ==> ({
                let i = ep_index_spec(ep as int, dir);
                &&& old(self).endpoint(i).phase() == EndpointPhase::Disabled ==> r == Err::<
                    (),
                    UsbError,
                >(UsbError::NotConfigured) && *final(self) == *old(self)
                &&& old(self).endpoint(i).phase() != EndpointPhase::Disabled ==> r == Ok::<
                    (),
                    UsbError,
                >(()) && final(self).endpoint(i).phase() == EndpointPhase::Stalled && !final(self).endpoint(i).active() && forall|j: int|
                    0 <= j < 2 * MAX_ENDPOINTS && j != i ==> final(self).endpoint(j) == old(self).endpoint(j)
            }),
    {
        if ep >= MAX_ENDPOINTS {
            return Err(UsbError::InvalidEndpoint);
        }
        let idx = ep_index(ep, dir);
        match self.endpoints[idx].phase_of() {
            EndpointPhase::Disabled => Err(UsbError::NotConfigured),
            _ => {
                self.endpoints[idx].stall();
                Ok(())
            },
        }
    }

    /// Clear a stall: the endpoint may move data again. Un-stalling an
    /// endpoint that is configured and not stalled changes nothing.
    pub fn unstall(&mut self, ep: usize, dir: Direction) -> (r: Result<(), UsbError>)
        requires
            old(self).wf(),
        ensures
            final(self).wf(),
            final(self).same_config(*old(self)),
            ep >= MAX_ENDPOINTS ==> r == Err::<(), UsbError>(UsbError::InvalidEndpoint) && *final(self) == *old(self),
            ep < MAX_ENDPOINTS ==> ({
                let i = ep_index_spec(ep as int, dir);
                &&& old(self).endpoint(i).phase() == EndpointPhase::Disabled ==> r == Err::<
                    (),
                    UsbError,
                >(UsbError::NotConfigured) && *final(self) == *old(self)
                &&& old(self).endpoint(i).phase() == EndpointPhase::Configured ==> r == Ok::<
                    (),
                    UsbError,
                >(()) && *final(self) == *old(self)
                &&& old(self).endpoint(i).phase() == EndpointPhase::Stalled ==> r == Ok::<
                    (),
                    UsbError,
                >(()) && final(self).endpoint(i).phase() == EndpointPhase::Configured && forall|
                    j: int,
                |
                    0 <= j < 2 * MAX_ENDPOINTS && j != i ==> final(self).endpoint(j) == old(self).endpoint(j)
            }),
    {
        if ep >= MAX_ENDPOINTS {
            return Err(UsbError::InvalidEndpoint);
        }
        let idx = ep_index(ep, dir);
        match self.endpoints[idx].phase_of() {
            EndpointPhase::Disabled => Err(UsbError::NotConfigured),
            EndpointPhase::Configured => Ok(()),
            EndpointPhase::Stalled => {
                self.endpoints[idx].clear_stall();
                Ok(())
            },
        }
    }

    /// Latch the device address the host assigned. The value is only
    /// latched here; it reaches the hardware when the status stage of the
    /// SET_ADDRESS control transfer completes, never earlier.
    pub fn set_address(&mut self, addr: u8)
        requires
            old(self).wf(),
        ensures
            final(self).wf(),
            final(self).same_config(*old(self)),
            final(self).pending_address_spec() == Some((addr % 0x80) as u8),
            final(self).hardware_address_spec() == old(self).hardware_address_spec(),
            forall|j: int|
                0 <= j < 2 * MAX_ENDPOINTS ==> final(self).endpoint(j) == old(self).endpoint(j),
            final(self).control_stage_spec() == old(self).control_stage_spec(),
            final(self).bus_phase_spec() == old(self).bus_phase_spec(),
    {
        self.pending_address = Some(addr % 0x80);
    }

    /// Record whether the host selected a configuration: an addressed bus
    /// becomes `Configured`, deselecting returns it to `Addressed`.
    pub fn set_configured(&mut self, on: bool)
        requires
            old(self).wf(),
        ensures
            final(self).wf(),
            final(self).same_config(*old(self)),
            on && old(self).bus_phase_spec() == BusPhase::Addressed ==> final(self).bus_phase_spec() == BusPhase::Configured,
            !on && old(self).bus_phase_spec() == BusPhase::Configured ==> final(self).bus_phase_spec() == BusPhase::Addressed,
            on && old(self).bus_phase_spec() != BusPhase::Addressed ==> *final(self) == *old(self),
            !on && old(self).bus_phase_spec() != BusPhase::Configured ==> *final(self) == *old(self),
            forall|j: int|
                0 <= j < 2 * MAX_ENDPOINTS ==> final(self).endpoint(j) == old(self).endpoint(j),
    {
        if on {
            if matches!(self.bus, BusPhase::Addressed) {
                self.bus = BusPhase::Configured;
            }
        } else {
            if matches!(self.bus, BusPhase::Configured) {
                self.bus = BusPhase::Addressed;
            }
        }
    }

    /// Handle a bus reset: every endpoint returns to `Disabled` with its
    /// stall cleared, any latched address is dropped, the hardware
    /// address returns to zero, and the bus is powered-default again.
    pub fn handle_reset(&mut self)
        requires
            old(self).wf(),
        ensures
            final(self).wf(),
            final(self).same_config(*old(self)),
            forall|i: int|
                0 <= i < 2 * MAX_ENDPOINTS ==> (#[trigger] final(self).endpoint(i)).phase()
                    == EndpointPhase::Disabled && !final(self).endpoint(i).active() && final(self).endpoint(i).available() == 0,
            final(self).pending_address_spec() is None,
            final(self).hardware_address_spec() == 0,
            final(self).bus_phase_spec() == BusPhase::PoweredDefault,
            final(self).control_stage_spec() == ControlStage::Idle,
            !final(self).suspended_spec(),
    {
        let mut i: usize = 0;
        while i < self.endpoints.len()
            invariant
                self.endpoints@.len() == 2 * MAX_ENDPOINTS,
                i <= self.endpoints@.len(),
                self.allocator.wf(),
                self.same_config(*old(self)),
                forall|j: int|
                    0 <= j < self.endpoints@.len() ==> (#[trigger] self.endpoints@[j]).wf(),
                forall|j: int|
                    0 <= j < i ==> (#[trigger] self.endpoints@[j]).phase()
                        == EndpointPhase::Disabled && !self.endpoints@[j].active()
                        && self.endpoints@[j].available() == 0,
            decreases self.endpoints@.len() - i,
        {
            self.endpoints[i].disable();
            i = i + 1;
        }
        self.pending_address = None;
        self.hardware_address = 0;
        self.bus = BusPhase::PoweredDefault;
        self.ctrl = ControlStage::Idle;
        self.suspended = false;
    }

    /// Handle the raw bytes of a setup packet received on endpoint 0 OUT.
    ///
    /// Exactly eight bytes decode into a packet: the control stage moves
    /// to the stage the packet announces, a SET_ADDRESS value is latched
    /// without touching the hardware-visible address, and the packet is
    /// reported. Any other length is a protocol error: both directions of
    /// endpoint 0 are stalled and the error is reported. A setup arriving
    /// while endpoint 0 is not configured is dropped.
    pub fn handle_setup(&mut self, bytes: &Vec<u8>) -> (ev: Option<Event>)
        requires
            old(self).wf(),
        ensures
            final(self).wf(),
            final(self).same_config(*old(self)),
            final(self).hardware_address_spec() == old(self).hardware_address_spec(),
            final(self).suspended_spec() == old(self).suspended_spec(),
            old(self).endpoint(0).phase() == EndpointPhase::Disabled ==> ev is None && *final(self)
                == *old(self),
            old(self).endpoint(0).phase() != EndpointPhase::Disabled && bytes@.len()
                != SETUP_PACKET_LENGTH ==> ({
                &&& ev == Some(Event::ProtocolError { endpoint: 0 })
                &&& final(self).endpoint(0).phase() == EndpointPhase::Stalled
                &&& !final(self).endpoint(0).active()
                &&& final(self).endpoint(1).phase() == (if old(self).endpoint(1).phase()
                    == EndpointPhase::Disabled {
                    EndpointPhase::Disabled
                } else {
                    EndpointPhase::Stalled
                })
                &&& old(self).endpoint(1).phase() == EndpointPhase::Disabled ==> final(self)
                    .endpoint(1) == old(self).endpoint(1)
                &&& forall|j: int|
                    2 <= j < 2 * MAX_ENDPOINTS ==> final(self).endpoint(j) == old(self).endpoint(
                        j,
                    )
                &&& final(self).control_stage_spec() == ControlStage::Idle
                &&& final(self).pending_address_spec() == old(self).pending_address_spec()
                &&& final(self).bus_phase_spec() == old(self).bus_phase_spec()
                &&& final(self).maintenance_view() == old(self).maintenance_view()
            }),
            old(self).endpoint(0).phase() != EndpointPhase::Disabled && bytes@.len()
                == SETUP_PACKET_LENGTH ==> ({
                let p = spec_parse_setup(bytes@);
                &&& ev == Some(Event::SetupReceived { endpoint: 0, packet: p })
                &&& final(self).control_stage_spec() == spec_stage_after_setup(p)
                &&& final(self).pending_address_spec() == (if p.spec_is_set_address() {
                    Some((p.value % 0x80) as u8)
                } else {
                    old(self).pending_address_spec()
                })
                &&& forall|j: int|
                    0 <= j < 2 * MAX_ENDPOINTS ==> final(self).endpoint(j) == old(self).endpoint(
                        j,
                    )
                &&& final(self).bus_phase_spec() == old(self).bus_phase_spec()
            }),
    {
        let ep0_out = self.endpoints[0].phase_of();
        if matches!(ep0_out, EndpointPhase::Disabled) {
            return None;
        }
        match parse_setup(bytes) {
            None => {
                self.endpoints[0].stall();
                let idx_in = ep_index(0, Direction::In);
                if !matches!(self.endpoints[idx_in].phase_of(), EndpointPhase::Disabled) {
                    self.endpoints[idx_in].stall();
                }
                self.ctrl = ControlStage::Idle;
                Some(Event::ProtocolError { endpoint: 0 })
            },
            Some(packet) => {
                if packet.length == 0 {
                    self.ctrl = ControlStage::StatusIn;
                } else if matches!(packet.direction(), Direction::In) {
                    self.ctrl = ControlStage::DataIn { requested: packet.length };
                } else {
                    self.ctrl = ControlStage::DataOut { requested: packet.length };
                }
                if packet.is_set_address() {
                    self.pending_address = Some((packet.value % 0x80) as u8);
                }
                Some(Event::SetupReceived { endpoint: 0, packet })
            },
        }
    }

    /// Handle one retired transfer the hardware reported.
    ///
    /// A completion for an unknown endpoint, for an endpoint with nothing
    /// armed, or whose report does not match the armed chain's shape is
    /// hardware noise and is dropped. A genuine completion retires the
    /// chain; for a device-bound transfer it lands the received bytes in
    /// the endpoint buffer and queues the invalidate bracket; and it
    /// advances the control stage when it belongs to endpoint 0; a status
    /// stage completion applies a latched address, which is the only way
    /// the hardware-visible address ever changes. A chain that retired
    /// with a halt leaves its endpoint stalled until explicitly
    /// un-stalled.
    pub fn handle_completion(&mut self, c: &EndpointCompletion) -> (ev: Option<Event>)
        requires
            old(self).wf(),
        ensures
            final(self).wf(),
            final(self).same_config(*old(self)),
            final(self).suspended_spec() == old(self).suspended_spec(),
            spec_completion_step(*old(self), *final(self), *c, ev),
    {
        if c.endpoint >= MAX_ENDPOINTS {
            return None;
        }
        let idx = ep_index(c.endpoint, c.direction);
        if !self.endpoints[idx].is_active() {
            return None;
        }
        if c.report.len() != self.endpoints[idx].chain_count() {
            return None;
        }
        let (bytes, ring) = self.endpoints[idx].complete(&c.report);
        if matches!(ring, TransferStatus::Error) {
            self.endpoints[idx].stall();
        }
        let mut status = ring;
        if c.endpoint == 0 {
            let stage = self.ctrl;
            match stage {
                ControlStage::Idle => {},
                ControlStage::DataIn { requested } => {
                    if matches!(c.direction, Direction::In) {
                        status = if matches!(ring, TransferStatus::Error) {
                            TransferStatus::Error
                        } else if bytes < requested as usize {
                            TransferStatus::ShortPacket
                        } else {
                            ring
                        };
                        self.ctrl = ControlStage::StatusOut;
                    }
                },
                ControlStage::DataOut { requested: _ } => {
                    if matches!(c.direction, Direction::Out) {
                        self.ctrl = ControlStage::StatusIn;
                    }
                },
                ControlStage::StatusIn => {
                    if matches!(c.direction, Direction::In) {
                        self.apply_pending_address();
                        self.ctrl = ControlStage::Idle;
                    }
                },
                ControlStage::StatusOut => {
                    if matches!(c.direction, Direction::Out) {
                        self.apply_pending_address();
                        self.ctrl = ControlStage::Idle;
                    }
                },
            }
        }
        if matches!(c.direction, Direction::Out) {
            self.endpoints[idx].store_received(&c.received, bytes);
            let offset = self.endpoints[idx].buffer_base();
            self.maintenance.push(
                MaintenanceRequest { op: CacheOp::Invalidate, offset, len: bytes },
            );
        }
        Some(
            Event::TransferComplete {
                endpoint: c.endpoint,
                direction: c.direction,
                bytes,
                status,
            },
        )
    }

    /// Apply a latched address to the hardware and drop the latch; a
    /// freshly reset bus becomes addressed.
    fn apply_pending_address(&mut self)
        ensures
            final(self).hardware_address == spec_applied_address(
                old(self).pending_address,
                old(self).hardware_address,
            ),
            final(self).pending_address is None,
            final(self).bus == spec_bus_after_status(old(self).bus, old(self).pending_address),
            final(self).endpoints == old(self).endpoints,
            final(self).allocator == old(self).allocator,
            final(self).ctrl == old(self).ctrl,
            final(self).maintenance == old(self).maintenance,
            final(self).suspended == old(self).suspended,
            final(self).cache == old(self).cache,
            final(self).hw == old(self).hw,
            final(self).speed == old(self).speed,
    {
        match self.pending_address {
            Some(a) => {
                self.hardware_address = a;
                if matches!(self.bus, BusPhase::Reset) {
                    self.bus = BusPhase::Addressed;
                }
            },
            None => {},
        }
        self.pending_address = None;
    }

    /// Drain whatever the hardware has pending into an ordered event
    /// sequence: a bus reset first and alone, else any setup packet, then
    /// retired transfers in report order, then suspend and resume. Each
    /// call is finite and restartable from current hardware state.
    pub fn poll(&mut self, snapshot: &PollSnapshot) -> (events: Vec<Event>)
        requires
            old(self).wf(),
        ensures
            final(self).wf(),
            final(self).same_config(*old(self)),
            snapshot.bus_reset ==> ({
                &&& forall|i: int|
                    0 <= i < 2 * MAX_ENDPOINTS ==> (#[trigger] final(self).endpoint(i)).phase()
                        == EndpointPhase::Disabled && !final(self).endpoint(i).active()
                &&& final(self).pending_address_spec() is None
                &&& final(self).hardware_address_spec() == 0
                &&& final(self).bus_phase_spec() == BusPhase::PoweredDefault
                &&& events@ == seq![Event::Reset]
            }),
            !snapshot.bus_reset && snapshot.completions@.len() == 0 ==> final(self).hardware_address_spec() == old(self).hardware_address_spec(),
            !snapshot.bus_reset && (snapshot.setup matches Some(b) && b@.len()
                != SETUP_PACKET_LENGTH) && old(self).endpoint(0).phase() != EndpointPhase::Disabled
                ==> final(self).endpoint(0).phase() == EndpointPhase::Stalled,
            !snapshot.bus_reset ==> final(self).suspended_spec() == ((old(self).suspended_spec()
                || snapshot.suspend) && !snapshot.resume),
            !snapshot.bus_reset && snapshot.setup is None && snapshot.completions@.len() == 0
                && !snapshot.suspend && !snapshot.resume ==> events@.len() == 0 && *final(self)
                == *old(self),
            snapshot.setup is Some && !snapshot.bus_reset && snapshot.completions@.len() == 0
                && old(self).endpoint(0).phase() != EndpointPhase::Disabled
                && snapshot.setup->Some_0@.len() == SETUP_PACKET_LENGTH ==> ({
                let p = spec_parse_setup(snapshot.setup->Some_0@);
                &&& final(self).control_stage_spec() == spec_stage_after_setup(p)
                &&& events@.len() >= 1
                &&& events@[0] == (Event::SetupReceived { endpoint: 0, packet: p })
            }),
            !snapshot.bus_reset && snapshot.setup is None && !snapshot.suspend && !snapshot.resume
                && snapshot.completions@.len() == 1 ==> (exists|ev: Option<Event>|
                {
                    &&& #[trigger] spec_completion_step(
                        *old(self),
                        *final(self),
                        snapshot.completions@[0],
                        ev,
                    )
                    &&& ev matches Some(v) ==> events@.len() == 1 && events@[0] == v
                    &&& ev is None ==> events@.len() == 0
                }),
    {
        let mut events: Vec<Event> = Vec::new();
        if snapshot.bus_reset {
            self.handle_reset();
            events.push(Event::Reset);
            proof {
                assert(events@ =~= seq![Event::Reset]);
            }
            return events;
        }
        match &snapshot.setup {
            Some(bytes) => {
                match self.handle_setup(bytes) {
                    Some(ev) => {
                        events.push(ev);
                    },
                    None => {},
                }
            },
            None => {},
        }
        let ghost mid = *self;
        let ghost evs0 = events@;
        let mut i: usize = 0;
        while i < snapshot.completions.len()
            invariant
                self.wf(),
                i <= snapshot.completions@.len(),
                snapshot.completions@.len() == 0 ==> *self == mid && events@ == evs0,
                i == 0 ==> *self == mid && events@ == evs0,
                self.same_config(mid),
                snapshot.completions@.len() == 1 && i == 1 ==> (exists|ev: Option<Event>|
                    {
                        &&& #[trigger] spec_completion_step(
                            mid,
                            *self,
                            snapshot.completions@[0],
                            ev,
                        )
                        &&& ev matches Some(v) ==> events@.len() == evs0.len() + 1
                            && events@[evs0.len() as int] == v
                        &&& ev is None ==> events@ == evs0
                    }),
                forall|j: int|
                    0 <= j < 2 * MAX_ENDPOINTS && (#[trigger] mid.endpoint(j)).phase()
                        == EndpointPhase::Stalled ==> self.endpoint(j).phase()
                        == EndpointPhase::Stalled,
                mid.endpoints@.len() == 2 * MAX_ENDPOINTS,
                self.suspended_spec() == mid.suspended_spec(),
                snapshot.completions@.len() == 0 ==> self.hardware_address_spec()
                    == mid.hardware_address_spec(),
            decreases snapshot.completions@.len() - i,
        {
            let ghost pre_step = *self;
            let ghost evs_pre = events@;
            let ev = self.handle_completion(&snapshot.completions[i]);
            match ev {
                Some(e2) => {
                    events.push(e2);
                },
                None => {},
            }
            proof {
                if i == 0 && snapshot.completions@.len() == 1 {
                    assert(pre_step == mid && evs_pre == evs0);
                    assert(spec_completion_step(mid, *self, snapshot.completions@[0], ev));
                }
            }
            i = i + 1;
        }
        if snapshot.suspend {
            self.suspended = true;
            events.push(Event::Suspend);
        }
        if snapshot.resume {
            self.suspended = false;
            events.push(Event::Resume);
        }
        events
    }

    /// Move the queued coherency brackets out to the caller, in the order
    /// they became due.
    pub fn take_maintenance(&mut self) -> (r: Vec<MaintenanceRequest>)
        requires
            old(self).wf(),
        ensures
            final(self).wf(),
            final(self).same_config(*old(self)),
            r@ == old(self).maintenance_view(),
            final(self).maintenance_view() == Seq::<MaintenanceRequest>::empty(),
            forall|j: int|
                0 <= j < 2 * MAX_ENDPOINTS ==> final(self).endpoint(j) == old(self).endpoint(j),
            final(self).hardware_address_spec() == old(self).hardware_address_spec(),
            final(self).pending_address_spec() == old(self).pending_address_spec(),
            final(self).control_stage_spec() == old(self).control_stage_spec(),
            final(self).bus_phase_spec() == old(self).bus_phase_spec(),
    {
        let mut out: Vec<MaintenanceRequest> = Vec::new();
        core::mem::swap(&mut out, &mut self.maintenance);
        out
    }

    /// The rounded coherency range for a bracket against the endpoint
    /// region based at `region_base`, or nothing on a cache-less core.
    pub fn maintenance_range(&self, region_base: usize, m: &MaintenanceRequest) -> (r: Option<
        crate::cache::MaintenanceRange,
    >)
        requires
            region_base + m.offset + m.len + crate::cache::CACHE_LINE_SIZE - 1 <= usize::MAX,
        ensures
            (r is Some) == (self.has_data_cache() && m.len > 0),
            r matches Some(range) ==> crate::cache::covering_range(
                region_base + m.offset,
                m.len as int,
                range,
            ),
    {
        match m.op {
            CacheOp::Clean => self.cache.clean_for_device(region_base + m.offset, m.len),
            CacheOp::Invalidate => self.cache.invalidate_for_cpu(region_base + m.offset, m.len),
        }
    }

    /// The address of the owned USB core register block, for the caller's
    /// register work.
    pub fn usb_register_base(&self) -> (r: usize)
        ensures
            r == self.hardware_token().usb_addr(),
    {
        self.hw.usb_address()
    }

    /// The address of the owned USBPHY register block, for the caller's
    /// register work.
    pub fn usbphy_register_base(&self) -> (r: usize)
        ensures
            r == self.hardware_token().usbphy_addr(),
    {
        self.hw.usbphy_address()
    }

    /// The ownership token this adapter was built over.
    pub closed spec fn hardware_token(&self) -> HardwareOwnership {
        self.hw
    }

    /// The address the hardware currently answers to.
    pub fn address(&self) -> (r: u8)
        ensures
            r == self.hardware_address_spec(),
    {
        self.hardware_address
    }

    /// Bus-level protocol state.
    pub fn bus_phase(&self) -> (r: BusPhase)
        ensures
            r == self.bus_phase_spec(),
    {
        self.bus
    }

    /// The lifecycle phase of one endpoint direction.
    pub fn endpoint_phase(&self, ep: usize, dir: Direction) -> (r: EndpointPhase)
        requires
            self.wf(),
            ep < MAX_ENDPOINTS,
        ensures
            r == self.endpoint(ep_index_spec(ep as int, dir)).phase(),
    {
        let idx = ep_index(ep, dir);
        self.endpoints[idx].phase_of()
    }

    /// Negotiated speed.
    pub fn speed(&self) -> (r: Speed)
        ensures
            r == self.speed_spec(),
    {
        self.speed
    }
}

/// Index of one (endpoint, direction) pair in the control-block array.
fn ep_index(ep: usize, dir: Direction) -> (r: usize)
    requires
        ep < MAX_ENDPOINTS,
    ensures
        r == ep_index_spec(ep as int, dir),
        r < 2 * MAX_ENDPOINTS,
{
    2 * ep + (if matches!(dir, Direction::In) {
        1
    } else {
        0
    })
}

/// A control transfer that requests an IN data stage and moves fewer
/// bytes than requested completes with a short-packet status, which is
/// distinct from an error: the setup packet stages endpoint 0 for the
/// requested length, and the data-stage completion judged against it
/// reports a short packet.
pub proof fn lemma_short_in_data_stage(p: SetupPacket, transferred: int, ring: TransferStatus)
    requires
        p.spec_direction() == Direction::In,
        p.length > 0,
        0 <= transferred < p.length,
        ring != TransferStatus::Error,
    ensures
        spec_stage_after_setup(p) == (ControlStage::DataIn { requested: p.length }),
        spec_event_status(
            0,
            spec_stage_after_setup(p),
            Direction::In,
            transferred,
            ring,
        ) == TransferStatus::ShortPacket,
        TransferStatus::ShortPacket != TransferStatus::Error,
{
}

/// A latched address is never hardware-visible before the status stage:
/// any completion that is not a status-stage completion leaves the
/// hardware address alone, and the status-stage completion applies
/// exactly the latched value.
pub proof fn lemma_address_latch_ordering(stage: ControlStage, dir: Direction, a: u8, hw: u8)
    ensures
        spec_applied_address(Some(a), hw) == a,
        spec_applied_address(None, hw) == hw,
        (stage matches ControlStage::DataIn { .. }) || (stage matches ControlStage::DataOut { .. })
            || stage == ControlStage::Idle ==> !spec_is_status_completion(stage, dir),
{
}

/// A stalled endpoint's refusal is distinct from not-ready: the two
/// errors a data call can report for them are different values.
pub proof fn lemma_stalled_is_not_would_block()
    ensures
        UsbError::Stalled != UsbError::WouldBlock,
{
}

} // verus!
