//! Queue heads.
//!
//! One queue head summarizes one endpoint-direction's transfer state for
//! the hardware: the maximum packet size and the descriptor chain of the
//! transfer currently armed, if any. Hardware reads the structure directly
//! over DMA, so software only mutates it while no transfer is active, and
//! every hand-over between the CPU and the device passes through the
//! coherency states of [`crate::cache::Coherency`].

use vstd::prelude::*;
use crate::cache::Coherency;
use crate::td::{
    build_chain, chain_total, clamp_report, drain_chain, spec_build_chain, spec_drain_status,
    remaining_total, wf_chain, TdCompletion, TransferDescriptor, TransferStatus,
};

verus! {

/// Hardware-readable head of one endpoint-direction's descriptor ring.
pub struct QueueHead {
    /// Largest packet the endpoint exchanges in one bus transaction.
    max_packet_size: u16,
    /// The descriptor chain linked into this queue head; meaningful while a
    /// transfer is armed.
    chain: Vec<TransferDescriptor>,
    /// Whether a transfer is currently armed in hardware.
    active: bool,
    /// Who may currently observe the descriptor memory coherently.
    coherency: Coherency,
}

impl QueueHead {
    /// The endpoint's maximum packet size.
    pub closed spec fn max_packet(&self) -> u16 {
        self.max_packet_size
    }

    /// The armed descriptor chain.
    pub closed spec fn chain_view(&self) -> Seq<TransferDescriptor> {
        self.chain@
    }

    /// Whether a transfer is currently armed in hardware.
    pub closed spec fn is_active(&self) -> bool {
        self.active
    }

    /// Who may currently observe the descriptor memory coherently.
    pub closed spec fn coherency_state(&self) -> Coherency {
        self.coherency
    }

    /// A queue head is owned by the device exactly while a transfer is
    /// armed, and its armed chain always fits the arithmetic the drain
    /// needs.
    pub open spec fn wf(&self) -> bool {
        &&& self.is_active() ==> self.coherency_state() == Coherency::DeviceOwned
            && self.chain_view().len() >= 1 && chain_total(self.chain_view()) <= usize::MAX
        &&& !self.is_active() ==> self.coherency_state() == Coherency::CpuOwned
    }

    /// A fresh, inactive queue head for an endpoint with the given maximum
    /// packet size.
    pub fn new(max_packet_size: u16) -> (r: QueueHead)
        ensures
            r.wf(),
            r.max_packet() == max_packet_size,
            !r.is_active(),
    {
        QueueHead {
            max_packet_size,
            chain: Vec::new(),
            active: false,
            coherency: Coherency::CpuOwned,
        }
    }

    /// Build and link a descriptor chain covering `length` bytes starting
    /// at offset `base` of the endpoint region, clean it out for the
    /// device, and mark the transfer armed.
    pub fn arm(&mut self, base: usize, length: usize)
        requires
            old(self).wf(),
            !old(self).is_active(),
            base + length <= usize::MAX,
        ensures
            final(self).wf(),
            final(self).is_active(),
            final(self).max_packet() == old(self).max_packet(),
            final(self).coherency_state() == Coherency::DeviceOwned,
            wf_chain(final(self).chain_view(), base as int, length as int),
            final(self).chain_view() == spec_build_chain(base as int, length as int),
    {
        self.chain = build_chain(base, length);
        self.coherency = Coherency::DeviceOwned;
        self.active = true;
    }

    /// Whether a transfer is currently armed in hardware.
    pub fn active_flag(&self) -> (r: bool)
        ensures
            r == self.is_active(),
    {
        self.active
    }

    /// The number of descriptors in the armed chain.
    pub fn chain_len(&self) -> (r: usize)
        ensures
            r == self.chain_view().len(),
    {
        self.chain.len()
    }

    /// Take back an armed queue head after hardware retired its chain:
    /// invalidate for CPU view, read the completions out, and report the
    /// bytes transferred and the chain's status. The report is data the
    /// hardware wrote, so each remaining count is clamped to its
    /// descriptor's length rather than trusted.
    pub fn retire(&mut self, report: &Vec<TdCompletion>) -> (r: (usize, TransferStatus))
        requires
            old(self).wf(),
            old(self).is_active(),
            report@.len() == old(self).chain_view().len(),
        ensures
            final(self).wf(),
            !final(self).is_active(),
            final(self).max_packet() == old(self).max_packet(),
            final(self).coherency_state() == Coherency::CpuOwned,
            r.0 == chain_total(old(self).chain_view()) - remaining_total(
                clamp_report(old(self).chain_view(), report@),
            ),
            r.1 == spec_drain_status(clamp_report(old(self).chain_view(), report@)),
            r.0 <= chain_total(old(self).chain_view()),
    {
        let ghost cl = clamp_report(self.chain@, report@);
        let mut clamped: Vec<TdCompletion> = Vec::new();
        let mut i: usize = 0;
        proof {
            assert(cl.take(0) =~= Seq::<TdCompletion>::empty());
        }
        while i < report.len()
            invariant
                i <= report@.len(),
                report@.len() == self.chain@.len(),
                cl == clamp_report(self.chain@, report@),
                clamped@ == cl.take(i as int),
            decreases report@.len() - i,
        {
            let c = report[i];
            let cap = self.chain[i].length;
            let rem = if c.remaining <= cap {
                c.remaining
            } else {
                cap
            };
            clamped.push(TdCompletion { remaining: rem, halted: c.halted });
            proof {
                assert(cl[i as int] == TdCompletion { remaining: rem, halted: c.halted });
                assert(cl.take(i + 1) =~= cl.take(i as int).push(cl[i as int]));
            }
            i = i + 1;
        }
        proof {
            assert(cl.take(report@.len() as int) =~= cl);
            crate::td::lemma_remaining_total_nonneg(cl);
        }
        let r = drain_chain(&self.chain, &clamped);
        self.coherency = Coherency::CpuOwned;
        self.active = false;
        r
    }

    /// Halt this queue head: drop the armed chain, if any, and return the
    /// descriptor memory to the CPU. Used when the endpoint is stalled,
    /// disabled or reset while a transfer may be outstanding.
    pub fn halt(&mut self)
        requires
            old(self).wf(),
        ensures
            final(self).wf(),
            !final(self).is_active(),
            final(self).max_packet() == old(self).max_packet(),
    {
        self.chain = Vec::new();
        self.coherency = Coherency::CpuOwned;
        self.active = false;
    }
}

} // verus!
