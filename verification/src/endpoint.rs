//! Per-endpoint control blocks.
//!
//! One `EndpointState` exists per (endpoint number, direction) pair, up to
//! [`MAX_ENDPOINTS`] endpoints in each direction. It carries the endpoint's
//! lifecycle phase, its transfer type, its queue head, the buffer carved out
//! of the endpoint memory region for it, and the count of completed bytes
//! waiting to be read out. The phases move `Disabled` to `Configured` to
//! `Stalled`; a bus reset forces every endpoint back to `Disabled`.

use vstd::prelude::*;
use crate::buffer::{copy_count, copy_into, Buffer};
use crate::qh::QueueHead;
use crate::td::{chain_total, clamp_report, spec_build_chain, spec_drain_status, remaining_total,
    wf_chain, TdCompletion, TransferStatus};

verus! {

/// The most endpoints one core supports in each direction.
pub const MAX_ENDPOINTS: usize = 8;

/// The first `count` bytes of what the hardware handed over, or all of it
/// when it handed over fewer: the prefix a retired transfer actually
/// delivered.
pub open spec fn delivered_prefix(data: Seq<u8>, count: int) -> Seq<u8> {
    if count <= data.len() {
        data.take(count)
    } else {
        data
    }
}

/// Transfer direction of one endpoint, seen from the host: `In` moves data
/// to the host, `Out` moves data from it.
#[derive(Clone, Copy, PartialEq, Eq, Structural, Debug)]
pub enum Direction {
    /// Host-bound data.
    In,
    /// Device-bound data.
    Out,
}

/// The kind of transfers an endpoint carries.
#[derive(Clone, Copy, PartialEq, Eq, Structural, Debug)]
pub enum TransferType {
    /// Control transfers; endpoint 0 always carries these.
    Control,
    /// Bulk transfers.
    Bulk,
    /// Interrupt transfers.
    Interrupt,
    /// Isochronous transfers.
    Isochronous,
}

/// An endpoint's lifecycle phase.
#[derive(Clone, Copy, PartialEq, Eq, Structural, Debug)]
pub enum EndpointPhase {
    /// Unconfigured: the endpoint may not move data.
    Disabled,
    /// Configured and able to move data.
    Configured,
    /// Halted by a protocol or hardware condition; must be explicitly
    /// un-stalled before it can move data again.
    Stalled,
}

/// Per-endpoint control block for one (endpoint number, direction) pair.
pub struct EndpointState {
    /// The endpoint's lifecycle phase.
    phase: EndpointPhase,
    /// The kind of transfers the endpoint carries.
    transfer_type: TransferType,
    /// The endpoint's queue head and armed descriptor chain.
    qh: QueueHead,
    /// The buffer carved from the endpoint memory region, present once the
    /// endpoint is configured.
    buffer: Option<Buffer>,
    /// Completed bytes sitting in the buffer, not yet read out.
    available: usize,
}

impl EndpointState {
    /// The endpoint's lifecycle phase.
    pub closed spec fn phase(&self) -> EndpointPhase {
        self.phase
    }

    /// The kind of transfers the endpoint carries.
    pub closed spec fn transfer_type(&self) -> TransferType {
        self.transfer_type
    }

    /// Whether a transfer is armed in hardware.
    pub closed spec fn active(&self) -> bool {
        self.qh.is_active()
    }

    /// Completed bytes not yet read out.
    pub closed spec fn available(&self) -> nat {
        self.available as nat
    }

    /// The endpoint's maximum packet size.
    pub closed spec fn max_packet(&self) -> u16 {
        self.qh.max_packet()
    }

    /// The endpoint buffer's contents.
    pub closed spec fn buffer_view(&self) -> Seq<u8> {
        self.buffer->Some_0@
    }

    /// The endpoint buffer's offset from the region's base.
    pub closed spec fn buffer_offset(&self) -> nat {
        self.buffer->Some_0.offset()
    }

    /// Whether the endpoint holds a buffer.
    pub closed spec fn has_buffer(&self) -> bool {
        self.buffer is Some
    }

    /// Total bytes of the armed descriptor chain.
    pub closed spec fn armed_total(&self) -> int {
        chain_total(self.qh.chain_view())
    }

    /// The number of descriptors in the armed chain.
    pub open spec fn chain_len(&self) -> nat {
        self.qh_chain().len()
    }

    /// Structural invariant: a configured endpoint owns a buffer as large
    /// as its maximum packet size, the armed chain stays within that
    /// buffer, and counts never outrun it.
    pub closed spec fn inv(&self) -> bool {
        &&& self.qh.wf()
        &&& self.phase != EndpointPhase::Disabled ==> (self.buffer matches Some(b)
            && b@.len() == self.max_packet() && b.offset() + b@.len() <= usize::MAX)
        &&& self.phase == EndpointPhase::Disabled ==> self.buffer is None && self.available == 0
            && !self.qh.is_active()
        &&& self.qh.is_active() ==> self.phase == EndpointPhase::Configured && wf_chain(
            self.qh.chain_view(),
            self.buffer_offset() as int,
            self.armed_total(),
        ) && self.armed_total() <= self.buffer_view().len()
        &&& self.buffer matches Some(b) ==> self.available <= b@.len()
    }

    /// Public face of the invariant, so callers can carry it through their
    /// own contracts.
    pub open spec fn wf(&self) -> bool {
        self.inv()
    }

    /// A fresh endpoint: disabled, no buffer, nothing armed.
    pub fn disabled() -> (e: EndpointState)
        ensures
            e.wf(),
            e.phase() == EndpointPhase::Disabled,
            !e.active(),
            e.available() == 0,
    {
        EndpointState {
            phase: EndpointPhase::Disabled,
            transfer_type: TransferType::Bulk,
            qh: QueueHead::new(0),
            buffer: None,
            available: 0,
        }
    }

    /// Configure the endpoint: take ownership of `buffer`, record the
    /// maximum packet size and transfer type, and make it able to move
    /// data. Any previous configuration, stall or armed transfer is
    /// discarded.
    pub fn configure(&mut self, buffer: Buffer, max_packet: u16, transfer_type: TransferType)
        requires
            old(self).wf(),
            buffer@.len() == max_packet as nat,
            buffer.offset() + buffer@.len() <= usize::MAX,
        ensures
            final(self).wf(),
            final(self).phase() == EndpointPhase::Configured,
            final(self).max_packet() == max_packet,
            final(self).transfer_type() == transfer_type,
            !final(self).active(),
            final(self).available() == 0,
            final(self).buffer_offset() == buffer.offset(),
            final(self).buffer_view() == buffer@,
    {
        self.qh = QueueHead::new(max_packet);
        self.buffer = Some(buffer);
        self.transfer_type = transfer_type;
        self.available = 0;
        self.phase = EndpointPhase::Configured;
    }

    /// Stall the endpoint: halt its descriptor ring and mark it `Stalled`.
    pub fn stall(&mut self)
        requires
            old(self).wf(),
            old(self).phase() != EndpointPhase::Disabled,
        ensures
            final(self).wf(),
            final(self).phase() == EndpointPhase::Stalled,
            !final(self).active(),
            final(self).max_packet() == old(self).max_packet(),
            final(self).transfer_type() == old(self).transfer_type(),
            final(self).available() == old(self).available(),
            final(self).buffer_view() == old(self).buffer_view(),
            final(self).buffer_offset() == old(self).buffer_offset(),
    {
        self.qh.halt();
        self.phase = EndpointPhase::Stalled;
    }

    /// Clear a stall: the endpoint returns to `Configured` and may move
    /// data again.
    pub fn clear_stall(&mut self)
        requires
            old(self).wf(),
            old(self).phase() == EndpointPhase::Stalled,
        ensures
            final(self).wf(),
            final(self).phase() == EndpointPhase::Configured,
            !final(self).active(),
            final(self).max_packet() == old(self).max_packet(),
            final(self).transfer_type() == old(self).transfer_type(),
            final(self).available() == old(self).available(),
            final(self).buffer_view() == old(self).buffer_view(),
            final(self).buffer_offset() == old(self).buffer_offset(),
    {
        self.phase = EndpointPhase::Configured;
    }

    /// Tear the endpoint down to its unconfigured state, as a bus reset
    /// demands: no stall, no buffer, nothing armed, nothing to read.
    pub fn disable(&mut self)
        requires
            old(self).wf(),
        ensures
            final(self).wf(),
            final(self).phase() == EndpointPhase::Disabled,
            !final(self).active(),
            final(self).available() == 0,
    {
        self.qh.halt();
        self.buffer = None;
        self.available = 0;
        self.phase = EndpointPhase::Disabled;
    }

    /// Copy `bytes` into the endpoint buffer, truncating to the buffer's
    /// size, and arm a descriptor chain covering the accepted bytes.
    /// Returns how many bytes the transfer will carry.
    pub fn arm_write(&mut self, bytes: &Vec<u8>) -> (accepted: usize)
        requires
            old(self).wf(),
            old(self).phase() == EndpointPhase::Configured,
            !old(self).active(),
        ensures
            final(self).wf(),
            final(self).phase() == EndpointPhase::Configured,
            final(self).active(),
            accepted == copy_count(old(self).buffer_view(), bytes@),
            final(self).buffer_view() == copy_into(old(self).buffer_view(), bytes@),
            final(self).armed_total() == accepted,
            final(self).qh_chain() == spec_build_chain(
                old(self).buffer_offset() as int,
                accepted as int,
            ),
            final(self).max_packet() == old(self).max_packet(),
            final(self).transfer_type() == old(self).transfer_type(),
            final(self).buffer_offset() == old(self).buffer_offset(),
            final(self).available() == old(self).available(),
    {
        match &mut self.buffer {
            Some(buf) => {
                let accepted = buf.volatile_write(bytes);
                let base = buf.as_ptr_mut();
                self.qh.arm(base, accepted);
                accepted
            },
            None => {
                proof {
                    assert(false);
                }
                0
            },
        }
    }

    /// Arm a read: hand the whole buffer to the hardware so the host can
    /// fill it. Returns the number of bytes the transfer can carry.
    pub fn arm_read(&mut self) -> (armed: usize)
        requires
            old(self).wf(),
            old(self).phase() == EndpointPhase::Configured,
            !old(self).active(),
        ensures
            final(self).wf(),
            final(self).phase() == EndpointPhase::Configured,
            final(self).active(),
            armed == old(self).buffer_view().len(),
            final(self).armed_total() == armed,
            final(self).qh_chain() == spec_build_chain(
                old(self).buffer_offset() as int,
                armed as int,
            ),
            final(self).buffer_view() == old(self).buffer_view(),
            final(self).max_packet() == old(self).max_packet(),
            final(self).transfer_type() == old(self).transfer_type(),
            final(self).buffer_offset() == old(self).buffer_offset(),
            final(self).available() == old(self).available(),
    {
        match &mut self.buffer {
            Some(buf) => {
                let base = buf.as_ptr_mut();
                let armed = buf.len();
                self.qh.arm(base, armed);
                armed
            },
            None => {
                proof {
                    assert(false);
                }
                0
            },
        }
    }

    /// Retire the armed transfer against the completion report the
    /// hardware wrote, record the transferred bytes as available to read,
    /// and report the count and status.
    pub fn complete(&mut self, report: &Vec<TdCompletion>) -> (r: (usize, TransferStatus))
        requires
            old(self).wf(),
            old(self).active(),
            report@.len() == old(self).chain_len(),
        ensures
            final(self).wf(),
            !final(self).active(),
            old(self).phase() == EndpointPhase::Configured,
            final(self).phase() == old(self).phase(),
            final(self).max_packet() == old(self).max_packet(),
            final(self).transfer_type() == old(self).transfer_type(),
            final(self).buffer_view() == old(self).buffer_view(),
            final(self).buffer_offset() == old(self).buffer_offset(),
            r.0 == old(self).armed_total() - remaining_total(
                clamp_report(old(self).qh_chain(), report@),
            ),
            r.1 == spec_drain_status(clamp_report(old(self).qh_chain(), report@)),
            r.0 <= old(self).armed_total(),
            final(self).available() == r.0,
    {
        let r = self.qh.retire(report);
        self.available = r.0;
        r
    }

    /// The armed descriptor chain, for relating completion reports to it.
    pub closed spec fn qh_chain(&self) -> Seq<crate::td::TransferDescriptor> {
        self.qh.chain_view()
    }

    /// The endpoint's lifecycle phase.
    pub fn phase_of(&self) -> (r: EndpointPhase)
        ensures
            r == self.phase(),
    {
        self.phase
    }

    /// Whether a transfer is armed in hardware.
    pub fn is_active(&self) -> (r: bool)
        ensures
            r == self.active(),
    {
        self.qh.active_flag()
    }

    /// Completed bytes not yet read out.
    pub fn available_count(&self) -> (r: usize)
        ensures
            r == self.available(),
    {
        self.available
    }

    /// The number of descriptors in the armed chain.
    pub fn chain_count(&self) -> (r: usize)
        ensures
            r == self.chain_len(),
    {
        self.qh.chain_len()
    }

    /// The endpoint buffer's offset from the region's base.
    pub fn buffer_base(&self) -> (r: usize)
        requires
            self.wf(),
            self.phase() != EndpointPhase::Disabled,
        ensures
            r == self.buffer_offset(),
    {
        match &self.buffer {
            Some(buf) => buf.offset_of(),
            None => {
                proof {
                    assert(false);
                }
                0
            },
        }
    }

    /// Record the bytes the hardware wrote into the endpoint buffer when a
    /// device-bound transfer retired: the first `count` bytes of `data`,
    /// cut down to what the buffer holds, land at the buffer's start; the
    /// rest of the buffer keeps its old contents.
    pub fn store_received(&mut self, data: &Vec<u8>, count: usize)
        requires
            old(self).wf(),
            old(self).phase() != EndpointPhase::Disabled,
        ensures
            final(self).wf(),
            final(self).buffer_view() == copy_into(
                old(self).buffer_view(),
                delivered_prefix(data@, count as int),
            ),
            final(self).phase() == old(self).phase(),
            final(self).active() == old(self).active(),
            final(self).available() == old(self).available(),
            final(self).max_packet() == old(self).max_packet(),
            final(self).transfer_type() == old(self).transfer_type(),
            final(self).buffer_offset() == old(self).buffer_offset(),
            final(self).qh_chain() == old(self).qh_chain(),
            final(self).chain_len() == old(self).chain_len(),
    {
        let mut prefix: Vec<u8> = Vec::new();
        let mut i: usize = 0;
        while i < count && i < data.len()
            invariant
                i <= data@.len(),
                i <= count,
                prefix@ == data@.take(i as int),
            decreases data@.len() - i,
        {
            prefix.push(data[i]);
            proof {
                assert(data@.take(i + 1) =~= data@.take(i as int).push(data@[i as int]));
            }
            i = i + 1;
        }
        proof {
            assert(prefix@ =~= delivered_prefix(data@, count as int));
        }
        match &mut self.buffer {
            Some(buf) => {
                buf.volatile_write(&prefix);
            },
            None => {
                proof {
                    assert(false);
                }
            },
        }
    }

    /// Copy available completed bytes out of the endpoint buffer into
    /// `dest`, consuming them. Returns how many bytes were received: the
    /// shorter of `dest`'s length and the available count.
    pub fn read_into(&mut self, dest: &mut Vec<u8>) -> (r: usize)
        requires
            old(self).wf(),
            old(self).phase() == EndpointPhase::Configured,
        ensures
            final(self).wf(),
            final(self).phase() == EndpointPhase::Configured,
            r == if old(dest)@.len() <= old(self).available() {
                old(dest)@.len() as int
            } else {
                old(self).available() as int
            },
            final(dest)@ == copy_into(old(dest)@, old(self).buffer_view()),
            final(self).available() == old(self).available() - r,
            final(self).active() == old(self).active(),
            final(self).buffer_view() == old(self).buffer_view(),
            final(self).buffer_offset() == old(self).buffer_offset(),
            final(self).max_packet() == old(self).max_packet(),
            final(self).transfer_type() == old(self).transfer_type(),
    {
        match &self.buffer {
            Some(buf) => {
                let copied = buf.volatile_read(dest);
                let r = if copied <= self.available {
                    copied
                } else {
                    self.available
                };
                self.available = self.available - r;
                r
            },
            None => {
                proof {
                    assert(false);
                }
                0
            },
        }
    }
}

} // verus!
