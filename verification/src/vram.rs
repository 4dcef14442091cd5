use vstd::prelude::*;
use crate::pixel::{get_memory_size, required_bytes, PixelFormat};

verus! {

/// A span of video memory handed out by the arena allocator: `base` bytes
/// from the start of the managed region, `size` bytes long. Regions are
/// opaque handles; turning a base offset into a hardware address happens at
/// the device boundary, outside this crate.
#[derive(Clone, Copy, Debug, PartialEq, Eq, Structural)]
pub struct VramRegion {
    pub base: u32,
    pub size: u32,
}

/// Total bytes covered by a sequence of regions.
pub open spec fn total_size(regions: Seq<VramRegion>) -> int
    decreases regions.len(),
{
    if regions.len() == 0 {
        0
    } else {
        total_size(regions.drop_last()) + regions.last().size
    }
}

/// A packed arena layout: every region begins exactly where the bytes handed
/// out before it end, i.e. its base is the sum of all preceding sizes.
pub open spec fn packed_layout(regions: Seq<VramRegion>) -> bool {
    forall|i: int|
        0 <= i < regions.len() ==> (#[trigger] regions[i]).base == total_size(regions.take(i))
}

/// One-shot bump allocator over a fixed video-memory region.
///
/// It hands out non-overlapping pixel buffers by advancing a cursor and never
/// frees: it is meant for a single session of start-up buffer allocation.
/// The ghost `regions` field records every region handed out, so that the
/// packing and non-overlap laws can be stated over the whole history.
pub struct VramAllocator {
    cursor: u32,
    capacity: u32,
    regions: Ghost<Seq<VramRegion>>,
}

impl VramAllocator {
    /// Bytes handed out so far (the allocation cursor).
    pub closed spec fn used(self) -> int {
        self.cursor as int
    }

    /// Total bytes of the managed video-memory region.
    pub closed spec fn capacity(self) -> int {
        self.capacity as int
    }

    /// Every region handed out so far, oldest first.
    pub closed spec fn regions(self) -> Seq<VramRegion> {
        self.regions@
    }

    /// The allocator's invariant: the handed-out regions form a packed
    /// layout, the cursor sits at their total size, and everything handed
    /// out fits in the managed region.
    pub open spec fn wf(self) -> bool {
        &&& packed_layout(self.regions())
        &&& self.used() == total_size(self.regions())
        &&& self.used() <= self.capacity()
    }

    /// A fresh allocator over `capacity` bytes of video memory, with nothing
    /// handed out yet.
    pub fn new(capacity: u32) -> (a: VramAllocator)
        ensures
            a.wf(),
            a.used() == 0,
            a.capacity() == capacity,
            a.regions() == Seq::<VramRegion>::empty(),
    {
        VramAllocator { cursor: 0, capacity, regions: Ghost(Seq::empty()) }
    }

    /// Bytes handed out so far.
    pub fn used_bytes(&self) -> (u: u32)
        ensures
            u == self.used(),
    {
        self.cursor
    }

    /// Total bytes of the managed region.
    pub fn capacity_bytes(&self) -> (c: u32)
        ensures
            c == self.capacity(),
    {
        self.capacity
    }

    /// Carve out a pixel buffer of the given dimensions and format at the
    /// current cursor and advance the cursor past it.
    ///
    /// The allocator performs no bounds check of its own; the caller must
    /// have sized its buffers against the capacity, so a request that would
    /// run past the end of video memory is ruled out up front.
    pub fn allocate(&mut self, width: u16, height: u16, psm: PixelFormat) -> (r: VramRegion)
        requires
            old(self).wf(),
            old(self).used() + required_bytes(width as int, height as int, psm)
                <= old(self).capacity(),
        ensures
            final(self).wf(),
            r.base == old(self).used(),
            r.size == required_bytes(width as int, height as int, psm),
            final(self).used() == old(self).used() + r.size,
            final(self).capacity() == old(self).capacity(),
            final(self).regions() == old(self).regions().push(r),
    {
        let size = get_memory_size(width, height, psm);
        let base = self.cursor;
        self.cursor = self.cursor + size;
        let r = VramRegion { base, size };
        self.regions = Ghost(self.regions@.push(r));
        proof {
            let rs0 = old(self).regions@;
            let rs1 = rs0.push(r);
            assert(rs1.drop_last() =~= rs0);
            assert forall|i: int| 0 <= i < rs1.len() implies (#[trigger] rs1[i]).base
                == total_size(rs1.take(i)) by {
                if i < rs0.len() {
                    assert(rs1.take(i) =~= rs0.take(i));
                } else {
                    assert(rs1.take(i) =~= rs0);
                }
            }
        }
        r
    }
}

/// Prefix sums of region sizes never shrink: a longer prefix of the history
/// covers at least as many bytes as a shorter one.
pub proof fn lemma_total_size_monotonic(regions: Seq<VramRegion>, i: int, j: int)
    requires
        0 <= i <= j <= regions.len(),
    ensures
        total_size(regions.take(i)) <= total_size(regions.take(j)),
    decreases j - i,
{
    if i < j {
        lemma_total_size_monotonic(regions, i, j - 1);
        assert(regions.take(j).drop_last() =~= regions.take(j - 1));
        assert(regions.take(j).last() == regions[j - 1]);
    }
}

/// Allocation is monotonic: in a packed layout, each region's base offset is
/// the sum of all preceding regions' sizes, and an earlier region ends at or
/// before a later one begins.
pub proof fn lemma_allocation_monotonic(regions: Seq<VramRegion>, i: int, j: int)
    requires
        packed_layout(regions),
        0 <= i < j < regions.len(),
    ensures
        regions[i].base == total_size(regions.take(i)),
        regions[i].base + regions[i].size <= regions[j].base,
{
    assert(regions.take(i + 1).drop_last() =~= regions.take(i));
    assert(regions.take(i + 1).last() == regions[i]);
    lemma_total_size_monotonic(regions, i + 1, j);
}

/// No two handed-out regions overlap: a byte offset inside one region's
/// half-open `[base, base + size)` interval lies inside no other's.
pub proof fn lemma_regions_nonoverlapping(a: VramAllocator, i: int, j: int, x: int)
    requires
        a.wf(),
        0 <= i < a.regions().len(),
        0 <= j < a.regions().len(),
        i != j,
        a.regions()[i].base <= x < a.regions()[i].base + a.regions()[i].size,
    ensures
        !(a.regions()[j].base <= x < a.regions()[j].base + a.regions()[j].size),
{
    if i < j {
        lemma_allocation_monotonic(a.regions(), i, j);
    } else {
        lemma_allocation_monotonic(a.regions(), j, i);
    }
}

} // verus!
