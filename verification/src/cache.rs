//! Cache-coherency discipline for memory shared between the CPU and the
//! DMA-capable USB controller.
//!
//! The two engines observe memory through different paths: the CPU through
//! its data cache, the controller directly. Before the controller reads a
//! range the CPU just wrote, the range must be cleaned (written back);
//! before the CPU reads a range the controller just wrote, the range must be
//! invalidated. Both operations act on whole cache lines, so the manager
//! rounds every range outward to line granularity. On cores without a data
//! cache both operations are no-ops, selected once at construction rather
//! than at every call site.

use vstd::prelude::*;

verus! {

/// Cache line size of the target core, in bytes.
pub const CACHE_LINE_SIZE: usize = 32;

/// `a` rounded down to a cache-line boundary.
pub open spec fn line_down(a: int) -> int {
    a - (a % (CACHE_LINE_SIZE as int))
}

/// `a` rounded up to a cache-line boundary.
pub open spec fn line_up(a: int) -> int {
    line_down(a + CACHE_LINE_SIZE - 1)
}

/// Which engine may currently observe a DMA-shared object coherently.
///
/// Software builds or reads the object only while it is `CpuOwned`;
/// hardware may read or write it only while it is `DeviceOwned`. The
/// transitions are a clean (CPU hands the object to the device) and an
/// invalidate (CPU takes it back), so a missing coherency bracket is a
/// missing transition, not a silent bug.
#[derive(Clone, Copy, PartialEq, Eq, Structural, Debug)]
pub enum Coherency {
    /// The CPU's view is authoritative; the device must not touch it.
    CpuOwned,
    /// The object was cleaned out to memory and handed to the device; the
    /// CPU must invalidate before trusting a read of it.
    DeviceOwned,
}

/// One cache maintenance operation the caller must issue to the core:
/// a line-aligned address range covering the bytes that cross the CPU/DMA
/// boundary.
#[derive(Clone, Copy, PartialEq, Eq, Structural, Debug)]
pub struct MaintenanceRange {
    /// First byte of the range; a multiple of [`CACHE_LINE_SIZE`].
    pub start: usize,
    /// Length of the range; a multiple of [`CACHE_LINE_SIZE`].
    pub len: usize,
}

/// The two halves of a coherency bracket.
#[derive(Clone, Copy, PartialEq, Eq, Structural, Debug)]
pub enum CacheOp {
    /// Write the CPU's view back to memory before the device reads it.
    Clean,
    /// Discard the CPU's stale view before reading what the device wrote.
    Invalidate,
}

/// One coherency bracket the caller still has to perform against the
/// endpoint memory region: `op` over `len` bytes starting `offset` bytes
/// into the region. The caller turns the offset into an address and rounds
/// it through [`CacheCoherencyManager`].
#[derive(Clone, Copy, PartialEq, Eq, Structural, Debug)]
pub struct MaintenanceRequest {
    /// Which half of the bracket to perform.
    pub op: CacheOp,
    /// Offset of the range from the endpoint region's base.
    pub offset: usize,
    /// Length of the range in bytes.
    pub len: usize,
}

/// Issues cache maintenance brackets around every descriptor and buffer
/// access that crosses the CPU/DMA boundary.
pub struct CacheCoherencyManager {
    data_cache_present: bool,
}

impl CacheCoherencyManager {
    /// Whether the core this manager was configured for has a data cache.
    pub closed spec fn has_data_cache(&self) -> bool {
        self.data_cache_present
    }

    /// Configure the manager once for the target core. On a core without a
    /// data cache every maintenance operation reduces to a no-op.
    pub fn new(data_cache_present: bool) -> (r: CacheCoherencyManager)
        ensures
            r.has_data_cache() == data_cache_present,
    {
        CacheCoherencyManager { data_cache_present }
    }

    /// The maintenance range to clean before the device reads `[addr,
    /// addr + len)`: the range rounded outward to cache lines, or nothing on
    /// a core without a data cache or for an empty range.
    pub fn clean_for_device(&self, addr: usize, len: usize) -> (r: Option<MaintenanceRange>)
        requires
            addr + len + CACHE_LINE_SIZE - 1 <= usize::MAX,
        ensures
            (r is Some) == (self.has_data_cache() && len > 0),
            r matches Some(m) ==> covering_range(addr as int, len as int, m),
    {
        if self.data_cache_present && len > 0 {
            Some(round_to_lines(addr, len))
        } else {
            None
        }
    }

    /// The maintenance range to invalidate before the CPU reads `[addr,
    /// addr + len)` after the device wrote it: the range rounded outward to
    /// cache lines, or nothing on a core without a data cache or for an
    /// empty range.
    pub fn invalidate_for_cpu(&self, addr: usize, len: usize) -> (r: Option<MaintenanceRange>)
        requires
            addr + len + CACHE_LINE_SIZE - 1 <= usize::MAX,
        ensures
            (r is Some) == (self.has_data_cache() && len > 0),
            r matches Some(m) ==> covering_range(addr as int, len as int, m),
    {
        if self.data_cache_present && len > 0 {
            Some(round_to_lines(addr, len))
        } else {
            None
        }
    }
}

/// `m` is the tightest line-aligned range covering `[addr, addr + len)`.
pub open spec fn covering_range(addr: int, len: int, m: MaintenanceRange) -> bool {
    &&& m.start == line_down(addr)
    &&& m.start + m.len == line_up(addr + len)
    &&& (m.start as int) % (CACHE_LINE_SIZE as int) == 0
    &&& (m.len as int) % (CACHE_LINE_SIZE as int) == 0
    &&& m.start <= addr
    &&& addr + len <= m.start + m.len
}

/// Round `[addr, addr + len)` outward to whole cache lines.
fn round_to_lines(addr: usize, len: usize) -> (m: MaintenanceRange)
    requires
        len > 0,
        addr + len + CACHE_LINE_SIZE - 1 <= usize::MAX,
    ensures
        covering_range(addr as int, len as int, m),
{
    let start = (addr / CACHE_LINE_SIZE) * CACHE_LINE_SIZE;
    let end = ((addr + len + (CACHE_LINE_SIZE - 1)) / CACHE_LINE_SIZE) * CACHE_LINE_SIZE;
    proof {
        lemma_line_round(addr as int);
        lemma_line_round(addr as int + len as int + CACHE_LINE_SIZE - 1);
    }
    MaintenanceRange { start, len: end - start }
}

/// Rounding down to a line boundary: division and remainder by the line
/// size agree, and the result is aligned and no further than a line away.
proof fn lemma_line_round(a: int)
    requires
        a >= 0,
    ensures
        (a / (CACHE_LINE_SIZE as int)) * (CACHE_LINE_SIZE as int) == line_down(a),
        line_down(a) % (CACHE_LINE_SIZE as int) == 0,
        a - CACHE_LINE_SIZE < line_down(a) <= a,
{
    let c = CACHE_LINE_SIZE as int;
    assert((a / c) * c == a - (a % c) && (a - (a % c)) % c == 0 && 0 <= a % c < c)
        by (nonlinear_arith)
        requires
            a >= 0,
            c == 32,
    ;
}

} // verus!
