//! Endpoint memory buffers.
//!
//! A bus adapter owns an `Allocator`. The `Allocator` hands off `Buffer`s
//! carved from a single byte region, moving a free pointer downward from the
//! region's end and never reclaiming anything. Each `Buffer` exclusively owns
//! its bytes and remembers its offset from the region's base, so no two
//! buffers ever overlap. `Buffer`s support bulk, volatile-style reads and
//! writes that truncate to the shorter of the two lengths involved and report
//! the count actually transferred.

use vstd::prelude::*;

verus! {

/// The sequence that results from copying `src` over the front of `dest`:
/// the first `copy_count(dest, src)` bytes come from `src`, the rest of
/// `dest` is unchanged.
pub open spec fn copy_into(dest: Seq<u8>, src: Seq<u8>) -> Seq<u8> {
    src.take(copy_count(dest, src)) + dest.skip(copy_count(dest, src))
}

/// How many bytes such a copy transfers: the shorter of the two lengths.
pub open spec fn copy_count(dest: Seq<u8>, src: Seq<u8>) -> int {
    if src.len() <= dest.len() {
        src.len() as int
    } else {
        dest.len() as int
    }
}

/// Endpoint memory buffer allocator.
///
/// A bump arena over one fixed byte region: allocation carves buffers from
/// the high end, moving the free pointer down toward the base, and no
/// operation ever returns memory to the pool.
pub struct Allocator {
    /// The unallocated low part of the region, `[0, free_ptr)`.
    free: Vec<u8>,
    /// The region's total size; fixed for the allocator's lifetime.
    total: usize,
}

impl Allocator {
    /// The size of the whole region this allocator was created over.
    pub closed spec fn size(&self) -> nat {
        self.total as nat
    }

    /// The current free pointer, as an offset from the region's base: bytes
    /// at offsets `[0, free_ptr())` are still unallocated.
    pub closed spec fn free_ptr(&self) -> nat {
        self.free@.len()
    }

    /// The bytes of the region that are still unallocated.
    pub closed spec fn free_bytes(&self) -> Seq<u8> {
        self.free@
    }

    /// How many bytes have been handed out so far.
    pub open spec fn consumed(&self) -> int {
        self.size() - self.free_ptr()
    }

    /// A request of `size` bytes succeeds exactly when it fits below the
    /// free pointer.
    pub open spec fn can_allocate(&self, size: nat) -> bool {
        size <= self.free_ptr()
    }

    /// The free pointer never lies outside the region.
    pub closed spec fn wf(&self) -> bool {
        self.free@.len() <= self.total
    }

    /// Create a memory allocator that carves blocks out of the given byte
    /// region.
    pub fn new(region: Vec<u8>) -> (r: Allocator)
        ensures
            r.wf(),
            r.size() == region@.len(),
            r.free_ptr() == region@.len(),
            r.free_bytes() == region@,
    {
        let total = region.len();
        Allocator { free: region, total }
    }

    /// An `Allocator` that does not allocate any memory: every positive
    /// request fails.
    pub fn empty() -> (r: Allocator)
        ensures
            r.wf(),
            r.size() == 0,
            r.free_ptr() == 0,
    {
        Allocator { free: Vec::new(), total: 0 }
    }

    /// Allocates a buffer of exactly `size` bytes from the high end of the
    /// free space, moving the free pointer down; fails, changing nothing,
    /// when the remaining free space is smaller than `size`.
    pub fn allocate(&mut self, size: usize) -> (r: Option<Buffer>)
        requires
            old(self).wf(),
        ensures
            final(self).wf(),
            final(self).size() == old(self).size(),
            old(self).can_allocate(size as nat) ==> (r matches Some(b)
                && b.offset() == old(self).free_ptr() - size
                && b@.len() == size
                && b@ == old(self).free_bytes().skip(old(self).free_ptr() - size)
                && final(self).free_ptr() == old(self).free_ptr() - size
                && final(self).free_bytes() == old(self).free_bytes().take(
                    old(self).free_ptr() - size,
                )),
            !old(self).can_allocate(size as nat) ==> r is None && *final(self) == *old(self),
    {
        if size <= self.free.len() {
            let offset = self.free.len() - size;
            let data = self.free.split_off(offset);
            Some(Buffer { data, offset })
        } else {
            None
        }
    }

    /// The sum of the sizes of all accepted allocations never exceeds the
    /// region's size: what has been consumed is bounded by the region.
    pub proof fn lemma_consumption_bounded(&self)
        requires
            self.wf(),
        ensures
            0 <= self.consumed() <= self.size(),
            self.free_ptr() <= self.size(),
            self.size() <= usize::MAX,
    {
    }

    /// Exhaustion is monotonic: once a request of `n` bytes has failed, any
    /// later request of at least `n` bytes fails too, against this state or
    /// any state whose free pointer has moved further down, because
    /// allocation only ever moves the free pointer toward the base.
    pub proof fn lemma_monotonic_exhaustion(a1: Allocator, a2: Allocator, n: nat, m: nat)
        requires
            !a1.can_allocate(n),
            a2.free_ptr() <= a1.free_ptr(),
            m >= n,
        ensures
            !a2.can_allocate(m),
    {
    }
}

/// An endpoint memory buffer carved from an allocator's region.
///
/// The buffer exclusively owns its bytes; `offset` records where in the
/// region they came from, so that distinct buffers are known to cover
/// disjoint ranges.
pub struct Buffer {
    /// The buffer's bytes.
    data: Vec<u8>,
    /// The buffer's starting offset from the region's base.
    offset: usize,
}

impl View for Buffer {
    type V = Seq<u8>;

    closed spec fn view(&self) -> Seq<u8> {
        self.data@
    }
}

impl Buffer {
    /// The buffer's starting offset from the region's base.
    pub closed spec fn offset(&self) -> nat {
        self.offset as nat
    }

    /// Read the contents of this buffer into `buffer`, returning how many
    /// bytes were read: the shorter of the two lengths. A count smaller than
    /// `buffer`'s length means the read was truncated to this buffer's size.
    ///
    /// All reads from this buffer are volatile: hardware may have written
    /// the bytes since the CPU last looked.
    pub fn volatile_read(&self, buffer: &mut Vec<u8>) -> (r: usize)
        ensures
            r == copy_count(old(buffer)@, self@),
            final(buffer)@ == copy_into(old(buffer)@, self@),
    {
        let size = if buffer.len() <= self.data.len() {
            buffer.len()
        } else {
            self.data.len()
        };
        let mut i: usize = 0;
        while i < size
            invariant
                i <= size,
                size == copy_count(old(buffer)@, self@),
                size <= buffer@.len(),
                size <= self@.len(),
                buffer@.len() == old(buffer)@.len(),
                forall|j: int| 0 <= j < i ==> buffer@[j] == self@[j],
                forall|j: int| i <= j < buffer@.len() ==> buffer@[j] == old(buffer)@[j],
            decreases size - i,
        {
            buffer[i] = self.data[i];
            i = i + 1;
        }
        proof {
            assert(buffer@ =~= copy_into(old(buffer)@, self@));
        }
        size
    }

    /// Write the contents of `buffer` into this memory buffer, returning how
    /// many bytes were written: the shorter of the two lengths. A count
    /// smaller than `buffer`'s length means the write was truncated to this
    /// buffer's size.
    ///
    /// All writes into this buffer are volatile: the bytes must reach memory
    /// for hardware to observe them.
    pub fn volatile_write(&mut self, buffer: &Vec<u8>) -> (r: usize)
        ensures
            r == copy_count(old(self)@, buffer@),
            final(self)@ == copy_into(old(self)@, buffer@),
            final(self).offset() == old(self).offset(),
    {
        let size = if buffer.len() <= self.data.len() {
            buffer.len()
        } else {
            self.data.len()
        };
        let mut i: usize = 0;
        while i < size
            invariant
                i <= size,
                size == copy_count(old(self)@, buffer@),
                size <= buffer@.len(),
                size <= self@.len(),
                self@.len() == old(self)@.len(),
                self.offset == old(self).offset,
                forall|j: int| 0 <= j < i ==> self@[j] == buffer@[j],
                forall|j: int| i <= j < self@.len() ==> self@[j] == old(self)@[j],
            decreases size - i,
        {
            self.data[i] = buffer[i];
            i = i + 1;
        }
        proof {
            assert(self@ =~= copy_into(old(self)@, buffer@));
        }
        size
    }

    /// Returns the start of this memory buffer, as an offset from the base
    /// of the region it was carved from.
    pub fn as_ptr_mut(&mut self) -> (r: usize)
        ensures
            r == old(self).offset(),
            *final(self) == *old(self),
    {
        self.offset
    }

    /// The buffer's starting offset from the region's base, without
    /// borrowing the buffer mutably.
    pub fn offset_of(&self) -> (r: usize)
        ensures
            r == self.offset(),
    {
        self.offset
    }

    /// The buffer's length in bytes.
    pub fn len(&self) -> (r: usize)
        ensures
            r == self@.len(),
    {
        self.data.len()
    }
}

/// Round trip: writing `src` into a buffer whose contents are `stored` and
/// then reading the same number of bytes back yields `src` again, for any
/// write no longer than the buffer.
pub proof fn lemma_volatile_round_trip(stored: Seq<u8>, src: Seq<u8>, out: Seq<u8>)
    requires
        src.len() <= stored.len(),
        out.len() == src.len(),
    ensures
        copy_count(stored, src) == src.len(),
        copy_into(out, copy_into(stored, src)) == src,
{
    assert(copy_into(out, copy_into(stored, src)) =~= src);
}

/// Truncation: writing a caller sequence longer than the buffer transfers
/// exactly the buffer's length, and a read of at least that many bytes gets
/// that truncated prefix back.
pub proof fn lemma_volatile_truncation(stored: Seq<u8>, src: Seq<u8>, out: Seq<u8>)
    requires
        src.len() > stored.len(),
        out.len() >= stored.len(),
    ensures
        copy_count(stored, src) == stored.len(),
        copy_into(out, copy_into(stored, src)).take(stored.len() as int) == src.take(
            stored.len() as int,
        ),
{
    assert(copy_into(out, copy_into(stored, src)).take(stored.len() as int) =~= src.take(
        stored.len() as int,
    ));
}

} // verus!
