//! Transfer descriptors.
//!
//! One logical transfer is described to the hardware as a chain of
//! descriptors, each covering one buffer segment of at most
//! [`MAX_SEGMENT_SIZE`] bytes, consumed front to back. The hardware writes
//! completion status back into each descriptor: how many of its bytes were
//! left untransferred, and whether the endpoint halted. A short packet ends
//! the chain early, leaving the later descriptors untouched.

use vstd::prelude::*;

verus! {

/// Maximum number of bytes one transfer descriptor may cover.
pub const MAX_SEGMENT_SIZE: usize = 16384;

/// Completion status of one logical transfer.
#[derive(Clone, Copy, PartialEq, Eq, Structural, Debug)]
pub enum TransferStatus {
    /// Every requested byte was transferred.
    Success,
    /// The transfer ended early with a short packet; USB treats this as
    /// end-of-transfer, not as a fault.
    ShortPacket,
    /// A descriptor reported a halt; the endpoint must be un-stalled and
    /// re-armed before it can move data again.
    Error,
}

/// One DMA transfer segment: a slice of an endpoint buffer handed to the
/// hardware as part of a descriptor chain. The last descriptor of a chain
/// terminates it and carries the interrupt-on-complete flag.
#[derive(Clone, Copy, PartialEq, Eq, Structural, Debug)]
pub struct TransferDescriptor {
    /// Offset of this segment's first byte from the endpoint region's base.
    pub buffer_offset: usize,
    /// Number of bytes this segment covers; at most [`MAX_SEGMENT_SIZE`].
    pub length: usize,
    /// Whether completion of this descriptor raises an interrupt; set on
    /// the final descriptor of each chain.
    pub interrupt_on_complete: bool,
}

/// What the hardware wrote back into one descriptor when it retired.
#[derive(Clone, Copy, PartialEq, Eq, Structural, Debug)]
pub struct TdCompletion {
    /// How many of the descriptor's bytes were left untransferred.
    pub remaining: usize,
    /// Whether the descriptor retired with the halt bit set.
    pub halted: bool,
}

/// Total number of bytes a descriptor chain covers.
pub open spec fn chain_total(chain: Seq<TransferDescriptor>) -> int
    decreases chain.len(),
{
    if chain.len() == 0 {
        0
    } else {
        chain[0].length + chain_total(chain.skip(1))
    }
}

/// Total number of bytes a set of completions left untransferred.
pub open spec fn remaining_total(report: Seq<TdCompletion>) -> int
    decreases report.len(),
{
    if report.len() == 0 {
        0
    } else {
        report[0].remaining + remaining_total(report.skip(1))
    }
}

/// A well-formed chain for a transfer of `total` bytes out of a buffer that
/// starts at `base`: at least one descriptor, contiguous segments within
/// the segment-size bound, and the interrupt flag exactly on the last one.
pub open spec fn wf_chain(chain: Seq<TransferDescriptor>, base: int, total: int) -> bool {
    &&& chain.len() >= 1
    &&& chain_total(chain) == total
    &&& chain[0].buffer_offset == base
    &&& forall|i: int|
        0 <= i < chain.len() ==> (#[trigger] chain[i].length) <= MAX_SEGMENT_SIZE
    &&& forall|i: int|
        0 <= i < chain.len() - 1 ==> (#[trigger] chain[i + 1].buffer_offset) == chain[i].buffer_offset
            + chain[i].length
    &&& forall|i: int|
        0 <= i < chain.len() ==> ((#[trigger] chain[i].interrupt_on_complete) <==> i == chain.len()
            - 1)
}

/// Appending a descriptor adds its length to the chain's total.
pub proof fn lemma_chain_total_push(chain: Seq<TransferDescriptor>, d: TransferDescriptor)
    ensures
        chain_total(chain.push(d)) == chain_total(chain) + d.length,
    decreases chain.len(),
{
    if chain.len() == 0 {
        assert(chain.push(d)[0] == d);
        assert(chain.push(d).skip(1) =~= Seq::<TransferDescriptor>::empty());
        assert(chain_total(chain.push(d)) == chain.push(d)[0].length + chain_total(
            chain.push(d).skip(1),
        ));
    } else {
        assert(chain.push(d)[0] == chain[0]);
        assert(chain.push(d).skip(1) =~= chain.skip(1).push(d));
        lemma_chain_total_push(chain.skip(1), d);
    }
}

/// Appending a completion adds its remaining count to the total.
pub proof fn lemma_remaining_total_push(report: Seq<TdCompletion>, c: TdCompletion)
    ensures
        remaining_total(report.push(c)) == remaining_total(report) + c.remaining,
    decreases report.len(),
{
    if report.len() == 0 {
        assert(report.push(c)[0] == c);
        assert(report.push(c).skip(1) =~= Seq::<TdCompletion>::empty());
        assert(remaining_total(report.push(c)) == report.push(c)[0].remaining + remaining_total(
            report.push(c).skip(1),
        ));
    } else {
        assert(report.push(c)[0] == report[0]);
        assert(report.push(c).skip(1) =~= report.skip(1).push(c));
        lemma_remaining_total_push(report.skip(1), c);
    }
}

/// Untransferred counts are never negative.
pub proof fn lemma_remaining_total_nonneg(report: Seq<TdCompletion>)
    ensures
        remaining_total(report) >= 0,
    decreases report.len(),
{
    if report.len() > 0 {
        lemma_remaining_total_nonneg(report.skip(1));
    }
}

/// A chain's total is never negative.
pub proof fn lemma_chain_total_nonneg(chain: Seq<TransferDescriptor>)
    ensures
        chain_total(chain) >= 0,
    decreases chain.len(),
{
    if chain.len() > 0 {
        lemma_chain_total_nonneg(chain.skip(1));
    }
}

/// A chain's total splits over any prefix/suffix cut.
pub proof fn lemma_chain_total_split(chain: Seq<TransferDescriptor>, i: int)
    requires
        0 <= i <= chain.len(),
    ensures
        chain_total(chain) == chain_total(chain.take(i)) + chain_total(chain.skip(i)),
    decreases i,
{
    if i == 0 {
        assert(chain.take(0) =~= Seq::<TransferDescriptor>::empty());
        assert(chain.skip(0) =~= chain);
    } else {
        lemma_chain_total_split(chain, i - 1);
        assert(chain.take(i) =~= chain.take(i - 1).push(chain[i - 1]));
        lemma_chain_total_push(chain.take(i - 1), chain[i - 1]);
        assert(chain.skip(i - 1).skip(1) =~= chain.skip(i));
        assert(chain.skip(i - 1)[0] == chain[i - 1]);
    }
}

/// The one chain that covers a transfer of `length` bytes starting at
/// offset `base`: maximal segments front to back, the interrupt flag on
/// the last; a zero-length transfer still gets one descriptor.
pub open spec fn spec_build_chain(base: int, length: int) -> Seq<TransferDescriptor>
    decreases length,
{
    if length > MAX_SEGMENT_SIZE {
        seq![
            TransferDescriptor {
                buffer_offset: base as usize,
                length: MAX_SEGMENT_SIZE,
                interrupt_on_complete: false,
            },
        ] + spec_build_chain(base + MAX_SEGMENT_SIZE, length - MAX_SEGMENT_SIZE)
    } else {
        seq![
            TransferDescriptor {
                buffer_offset: base as usize,
                length: length as usize,
                interrupt_on_complete: true,
            },
        ]
    }
}

/// Build the descriptor chain for a transfer of `length` bytes out of a
/// buffer that starts at offset `base` of the endpoint region, splitting
/// into maximal segments; a zero-length transfer still gets one descriptor.
/// The result is exactly [`spec_build_chain`] of the same range, so the
/// armed chain's shape is fully determined by its base and length.
pub fn build_chain(base: usize, length: usize) -> (chain: Vec<TransferDescriptor>)
    requires
        base + length <= usize::MAX,
    ensures
        wf_chain(chain@, base as int, length as int),
        chain@ == spec_build_chain(base as int, length as int),
{
    let mut chain: Vec<TransferDescriptor> = Vec::new();
    let mut done: usize = 0;
    while length - done > MAX_SEGMENT_SIZE
        invariant
            done <= length,
            base + length <= usize::MAX,
            chain_total(chain@) == done,
            done > 0 ==> chain@.len() >= 1 && chain@[0].buffer_offset == base,
            done == 0 ==> chain@.len() == 0,
            forall|i: int|
                0 <= i < chain@.len() ==> (#[trigger] chain@[i].length) == MAX_SEGMENT_SIZE
                    && !chain@[i].interrupt_on_complete,
            forall|i: int|
                0 <= i < chain@.len() - 1 ==> (#[trigger] chain@[i + 1].buffer_offset)
                    == chain@[i].buffer_offset + chain@[i].length,
            chain@.len() >= 1 ==> chain@[chain@.len() - 1].buffer_offset
                + chain@[chain@.len() - 1].length == base + done,
            spec_build_chain(base as int, length as int) == chain@ + spec_build_chain(
                base + done,
                length - done,
            ),
        decreases length - done,
    {
        let d = TransferDescriptor {
            buffer_offset: base + done,
            length: MAX_SEGMENT_SIZE,
            interrupt_on_complete: false,
        };
        proof {
            lemma_chain_total_push(chain@, d);
            assert(chain@ + spec_build_chain(base + done, length - done) =~= chain@.push(d)
                + spec_build_chain(base + done + MAX_SEGMENT_SIZE, length - done
                - MAX_SEGMENT_SIZE));
        }
        chain.push(d);
        done = done + MAX_SEGMENT_SIZE;
    }
    let last = TransferDescriptor {
        buffer_offset: base + done,
        length: length - done,
        interrupt_on_complete: true,
    };
    let ghost pre = chain@;
    proof {
        lemma_chain_total_push(chain@, last);
    }
    chain.push(last);
    proof {
        let s = chain@;
        assert(s == pre.push(last));
        assert(spec_build_chain(base + done, length - done) =~= seq![last]);
        assert(s =~= pre + spec_build_chain(base + done, length - done));
        assert(s[s.len() - 1] == last);
        assert forall|i: int| 0 <= i < s.len() - 1 implies (#[trigger] s[i + 1].buffer_offset)
            == s[i].buffer_offset + s[i].length by {
            assert(s[i] == pre[i]);
            if i + 1 < s.len() - 1 {
                assert(s[i + 1] == pre[i + 1]);
            } else {
                assert(pre.len() >= 1);
                assert(s[i] == pre[pre.len() - 1]);
            }
        }
        assert forall|i: int| 0 <= i < s.len() implies ((#[trigger] s[i].interrupt_on_complete)
            <==> i == s.len() - 1) by {
            if i < s.len() - 1 {
                assert(s[i] == pre[i]);
                assert(pre[i].length == MAX_SEGMENT_SIZE);
            }
        }
    }
    chain
}

/// A hardware completion report, entry by entry, with each remaining count
/// clamped to the length of the descriptor it retired: a report is data the
/// hardware wrote, so a count larger than the armed segment is cut down
/// rather than trusted.
pub open spec fn clamp_report(chain: Seq<TransferDescriptor>, report: Seq<TdCompletion>) -> Seq<
    TdCompletion,
> {
    Seq::new(
        report.len(),
        |i: int|
            TdCompletion {
                remaining: if report[i].remaining <= chain[i].length {
                    report[i].remaining
                } else {
                    chain[i].length
                },
                halted: report[i].halted,
            },
    )
}

/// The status a completed chain reports: a halt anywhere is an error,
/// otherwise untransferred bytes mean a short packet, otherwise success.
pub open spec fn spec_drain_status(report: Seq<TdCompletion>) -> TransferStatus {
    if exists|i: int| 0 <= i < report.len() && (#[trigger] report[i]).halted {
        TransferStatus::Error
    } else if remaining_total(report) > 0 {
        TransferStatus::ShortPacket
    } else {
        TransferStatus::Success
    }
}

/// Inspect the completions the hardware wrote into a retired chain and
/// report how many bytes were actually transferred together with the
/// chain's completion status.
pub fn drain_chain(chain: &Vec<TransferDescriptor>, report: &Vec<TdCompletion>) -> (r: (
    usize,
    TransferStatus,
))
    requires
        report@.len() == chain@.len(),
        forall|i: int|
            0 <= i < report@.len() ==> (#[trigger] report@[i].remaining) <= chain@[i].length,
        chain_total(chain@) <= usize::MAX,
    ensures
        r.0 == chain_total(chain@) - remaining_total(report@),
        r.1 == spec_drain_status(report@),
{
    let mut transferred: usize = 0;
    let mut left: usize = 0;
    let mut halted = false;
    let mut i: usize = 0;
    proof {
        assert(chain@.take(0) =~= Seq::<TransferDescriptor>::empty());
        assert(report@.take(0) =~= Seq::<TdCompletion>::empty());
    }
    while i < chain.len()
        invariant
            i <= chain@.len(),
            report@.len() == chain@.len(),
            forall|j: int|
                0 <= j < report@.len() ==> (#[trigger] report@[j].remaining) <= chain@[j].length,
            chain_total(chain@) <= usize::MAX,
            transferred + left == chain_total(chain@.take(i as int)),
            left == remaining_total(report@.take(i as int)),
            halted == exists|j: int| 0 <= j < i && (#[trigger] report@[j]).halted,
        decreases chain@.len() - i,
    {
        proof {
            lemma_chain_total_split(chain@, i + 1);
            lemma_chain_total_nonneg(chain@.skip(i + 1));
            assert(chain@.take(i + 1) =~= chain@.take(i as int).push(chain@[i as int]));
            assert(report@.take(i + 1) =~= report@.take(i as int).push(report@[i as int]));
            lemma_chain_total_push(chain@.take(i as int), chain@[i as int]);
            lemma_remaining_total_push(report@.take(i as int), report@[i as int]);
        }
        transferred = transferred + (chain[i].length - report[i].remaining);
        left = left + report[i].remaining;
        if report[i].halted {
            halted = true;
        }
        i = i + 1;
    }
    proof {
        assert(chain@.take(chain@.len() as int) =~= chain@);
        assert(report@.take(report@.len() as int) =~= report@);
    }
    let status = if halted {
        TransferStatus::Error
    } else if left > 0 {
        TransferStatus::ShortPacket
    } else {
        TransferStatus::Success
    };
    (transferred, status)
}

} // verus!
