//! Physical frame allocation and the direct physical-memory map.
//!
//! The firmware hands the kernel an ordered, immutable list of physical
//! memory regions. The allocator filters the usable regions, slices each
//! into page-sized steps, concatenates them in region order, and issues
//! frames monotonically: no frame is ever handed out twice in one boot
//! session, and there is no free path. Walking the resulting page tables
//! relies on a single additive offset that maps every physical address to
//! a virtual one.
use vstd::prelude::*;

verus! {

/// Size in bytes of one page frame.
pub const PAGE_SIZE: u64 = 4096;

/// Classification of a firmware-reported physical memory region.
#[derive(Clone, Copy, Debug, PartialEq, Eq, Structural)]
pub enum MemoryRegionKind {
    /// Free for kernel use.
    Usable,
    /// Reserved by firmware or devices; never allocated from.
    Reserved,
    /// Owned by the bootloader (boot information, page tables, ...).
    Bootloader,
    /// Any other kind the firmware may report.
    Unknown,
}

/// A contiguous half-open range `[start, end)` of physical addresses,
/// tagged with its kind. Supplied once, read-only, by firmware at boot.
#[derive(Clone, Copy, Debug, PartialEq, Eq, Structural)]
pub struct MemoryRegion {
    pub start: u64,
    pub end: u64,
    pub kind: MemoryRegionKind,
}

/// `addr` rounded down to the page boundary at or below it.
pub open spec fn spec_align_down(addr: int) -> int {
    addr - addr % (PAGE_SIZE as int)
}

/// How many page-sized steps fit in `[start, end)`, starting at `start`.
pub open spec fn spec_region_step_count(r: MemoryRegion) -> nat {
    if r.start < r.end {
        (((r.end - r.start - 1) / (PAGE_SIZE as int)) + 1) as nat
    } else {
        0
    }
}

/// The frame reached by the `i`-th page-sized step through region `r`.
pub open spec fn spec_region_frame(r: MemoryRegion, i: int) -> u64 {
    spec_align_down(r.start + (PAGE_SIZE as int) * i) as u64
}

/// The frames a single region contributes: none unless it is usable.
pub open spec fn region_usable_frames(r: MemoryRegion) -> Seq<u64> {
    if r.kind == MemoryRegionKind::Usable {
        Seq::new(spec_region_step_count(r), |i: int| spec_region_frame(r, i))
    } else {
        Seq::empty()
    }
}

/// All usable frames of a memory map, in region order and, within each
/// region, in ascending address order.
pub open spec fn usable_frames_of(regions: Seq<MemoryRegion>) -> Seq<u64>
    decreases regions.len(),
{
    if regions.len() == 0 {
        Seq::empty()
    } else {
        region_usable_frames(regions[0]) + usable_frames_of(regions.skip(1))
    }
}

/// A well-formed firmware memory map: regions are page-aligned,
/// non-empty-ranged, and listed in ascending address order without
/// overlap, as firmware reports them.
pub open spec fn spec_map_wf(regions: Seq<MemoryRegion>) -> bool {
    &&& forall|i: int| 0 <= i < regions.len() ==> (#[trigger] regions[i]).start % PAGE_SIZE == 0
    &&& forall|i: int| 0 <= i < regions.len() ==> (#[trigger] regions[i]).start <= regions[i].end
    &&& forall|i: int|
        0 <= i < regions.len() - 1 ==> (#[trigger] regions[i]).end <= regions[i + 1].start
}

/// Every frame of a well-formed map sits at or above `bound` when its
/// first region does.
#[verifier::rlimit(60)]
proof fn lemma_frames_at_least(regions: Seq<MemoryRegion>, bound: int)
    requires
        spec_map_wf(regions),
        regions.len() > 0 ==> bound <= regions[0].start,
    ensures
        forall|k: int|
            0 <= k < usable_frames_of(regions).len() ==> #[trigger] usable_frames_of(regions)[k]
                >= bound,
    decreases regions.len(),
{
    if regions.len() > 0 {
        let r = regions[0];
        let head = region_usable_frames(r);
        let tail = regions.skip(1);
        let p = PAGE_SIZE as int;
        assert(spec_map_wf(tail)) by {
            assert(forall|i: int| 0 <= i < tail.len() ==> tail[i] == regions[i + 1]);
        }
        if tail.len() > 0 {
            assert(bound <= tail[0].start);
        }
        lemma_frames_at_least(tail, bound);
        assert forall|k: int| 0 <= k < head.len() implies #[trigger] head[k] >= bound by {
            let a = r.start + p * k;
            vstd::arithmetic::div_mod::lemma_mod_multiples_basic(k, p);
            vstd::arithmetic::div_mod::lemma_add_mod_noop(r.start as int, p * k, p);
            assert(a % p == 0);
            assert(head[k] == a - a % p);
        }
        assert forall|k: int|
            0 <= k < usable_frames_of(regions).len() implies #[trigger] usable_frames_of(
            regions,
        )[k] >= bound by {
            if k < head.len() {
                assert(usable_frames_of(regions)[k] == head[k]);
            } else {
                assert(usable_frames_of(regions)[k] == usable_frames_of(tail)[k - head.len()]);
            }
        }
    }
}

/// In a well-formed map the usable frames come out in strictly ascending
/// address order — so the bump allocator, which walks this sequence with
/// a monotone cursor, never issues the same frame twice in one session.
#[verifier::rlimit(60)]
pub proof fn lemma_no_frame_issued_twice(regions: Seq<MemoryRegion>)
    requires
        spec_map_wf(regions),
    ensures
        forall|i: int, j: int|
            0 <= i < j < usable_frames_of(regions).len() ==> #[trigger] usable_frames_of(
                regions,
            )[i] < #[trigger] usable_frames_of(regions)[j],
    decreases regions.len(),
{
    if regions.len() > 0 {
        let r = regions[0];
        let head = region_usable_frames(r);
        let tail = regions.skip(1);
        let frames = usable_frames_of(regions);
        let p = PAGE_SIZE as int;
        assert(spec_map_wf(tail)) by {
            assert(forall|i: int| 0 <= i < tail.len() ==> tail[i] == regions[i + 1]);
        }
        lemma_no_frame_issued_twice(tail);
        if tail.len() > 0 {
            assert(r.end <= tail[0].start);
        }
        lemma_frames_at_least(tail, r.end as int);
        assert forall|k: int| 0 <= k < head.len() implies #[trigger] head[k] == r.start + p * k
            && head[k] < r.end by {
            let a = r.start + p * k;
            vstd::arithmetic::div_mod::lemma_mod_multiples_basic(k, p);
            vstd::arithmetic::div_mod::lemma_add_mod_noop(r.start as int, p * k, p);
            assert(a % p == 0);
            vstd::arithmetic::div_mod::lemma_fundamental_div_mod(r.end - r.start - 1, p);
        }
        assert forall|i: int, j: int| 0 <= i < j < frames.len() implies #[trigger] frames[i] < (
        #[trigger] frames[j]) by {
            if j < head.len() {
                assert(frames[i] == head[i] && frames[j] == head[j]);
            } else if i >= head.len() {
                assert(frames[i] == usable_frames_of(tail)[i - head.len()]);
                assert(frames[j] == usable_frames_of(tail)[j - head.len()]);
            } else {
                assert(frames[i] == head[i]);
                assert(frames[j] == usable_frames_of(tail)[j - head.len()]);
                assert(head[i] < r.end);
                assert(usable_frames_of(tail)[j - head.len()] >= r.end);
            }
        }
    }
}

/// A page frame: a physical address aligned to the page size.
#[derive(Clone, Copy, Debug, PartialEq, Eq, Structural)]
pub struct PhysFrame {
    pub start: u64,
}

impl PhysFrame {
    /// Every issued frame sits on a page boundary.
    pub open spec fn wf(self) -> bool {
        self.start % PAGE_SIZE == 0
    }
}

/// Appending one region appends exactly that region's usable frames.
proof fn lemma_usable_frames_push(regions: Seq<MemoryRegion>, r: MemoryRegion)
    ensures
        usable_frames_of(regions.push(r)) == usable_frames_of(regions) + region_usable_frames(r),
    decreases regions.len(),
{
    if regions.len() == 0 {
        assert(regions.push(r)[0] == r);
        assert(regions.push(r).skip(1) =~= Seq::<MemoryRegion>::empty());
        assert(usable_frames_of(regions.push(r).skip(1)) =~= Seq::<u64>::empty());
        assert(usable_frames_of(regions) =~= Seq::<u64>::empty());
        assert(usable_frames_of(regions.push(r)) =~= region_usable_frames(r)
            + Seq::<u64>::empty());
        assert(usable_frames_of(regions.push(r)) =~= usable_frames_of(regions)
            + region_usable_frames(r));
    } else {
        assert(regions.push(r)[0] == regions[0]);
        assert(regions.push(r).skip(1) =~= regions.skip(1).push(r));
        lemma_usable_frames_push(regions.skip(1), r);
        assert(usable_frames_of(regions.push(r)) =~= usable_frames_of(regions)
            + region_usable_frames(r));
    }
}

/// The usable frames of the first `i` regions are a prefix of the whole:
/// the map splits at any region boundary.
proof fn lemma_usable_frames_split(regions: Seq<MemoryRegion>, i: int)
    requires
        0 <= i <= regions.len(),
    ensures
        usable_frames_of(regions) == usable_frames_of(regions.take(i)) + usable_frames_of(
            regions.skip(i),
        ),
    decreases i,
{
    if i == 0 {
        assert(regions.take(0) =~= Seq::<MemoryRegion>::empty());
        assert(regions.skip(0) =~= regions);
    } else {
        lemma_usable_frames_split(regions, i - 1);
        assert(regions.take(i) =~= regions.take(i - 1).push(regions[i - 1]));
        lemma_usable_frames_push(regions.take(i - 1), regions[i - 1]);
        let tail = regions.skip(i - 1);
        assert(tail.len() > 0);
        assert(tail[0] == regions[i - 1]);
        assert(tail.skip(1) =~= regions.skip(i));
        assert(usable_frames_of(regions) =~= usable_frames_of(regions.take(i))
            + usable_frames_of(regions.skip(i)));
    }
}

/// Every frame of the usable-frame sequence is page-aligned.
pub proof fn lemma_usable_frames_aligned(regions: Seq<MemoryRegion>)
    ensures
        forall|i: int|
            0 <= i < usable_frames_of(regions).len() ==> #[trigger] usable_frames_of(regions)[i]
                % PAGE_SIZE == 0,
    decreases regions.len(),
{
    if regions.len() > 0 {
        lemma_usable_frames_aligned(regions.skip(1));
        let head = region_usable_frames(regions[0]);
        let tail = usable_frames_of(regions.skip(1));
        let p = PAGE_SIZE as int;
        assert forall|i: int| 0 <= i < head.len() implies #[trigger] head[i] % PAGE_SIZE == 0 by {
            let r = regions[0];
            let a = r.start + p * i;
            vstd::arithmetic::div_mod::lemma_fundamental_div_mod(r.end - r.start - 1, p);
            assert(0 <= a <= r.end - 1);
            vstd::arithmetic::div_mod::lemma_fundamental_div_mod(a, p);
            vstd::arithmetic::div_mod::lemma_mod_multiples_basic(a / p, p);
            assert(spec_align_down(a) % p == 0);
        }
        assert forall|i: int| 0 <= i < usable_frames_of(regions).len() implies
            #[trigger] usable_frames_of(regions)[i] % PAGE_SIZE == 0 by {
            if i < head.len() {
                assert(usable_frames_of(regions)[i] == head[i]);
            } else {
                assert(usable_frames_of(regions)[i] == tail[i - head.len()]);
            }
        }
    }
}

/// Issues page frames drawn from the usable regions of the firmware
/// memory map, in ascending order within each region and region order
/// across regions, never repeating a frame.
pub struct BootInfoFrameAllocator {
    regions: Vec<MemoryRegion>,
    next: usize,
}

impl BootInfoFrameAllocator {
    /// The memory map this allocator draws from.
    pub closed spec fn regions(self) -> Seq<MemoryRegion> {
        self.regions@
    }

    /// The cursor: how many allocation attempts have been made.
    pub closed spec fn cursor(self) -> nat {
        self.next as nat
    }

    /// The full sequence of frames this allocator can ever issue.
    pub open spec fn frames(self) -> Seq<u64> {
        usable_frames_of(self.regions())
    }

    /// A fresh allocator over the given firmware memory map; nothing has
    /// been issued yet.
    pub fn new(regions: Vec<MemoryRegion>) -> (r: Self)
        ensures
            r.regions() == regions@,
            r.cursor() == 0,
    {
        Self { regions, next: 0 }
    }

    /// Returns the frame at the current cursor, if any usable frame is
    /// left, and advances the cursor; after the usable frames are
    /// exhausted every call returns `None`. Frames come out in the fixed
    /// order of the map, so no frame is issued twice.
    pub fn allocate_frame(&mut self) -> (r: Option<PhysFrame>)
        requires
            old(self).cursor() < usize::MAX,
        ensures
            final(self).regions() == old(self).regions(),
            final(self).cursor() == old(self).cursor() + 1,
            old(self).cursor() < old(self).frames().len() ==> r == Some(
                PhysFrame { start: old(self).frames()[old(self).cursor() as int] },
            ),
            old(self).cursor() >= old(self).frames().len() ==> r == None::<PhysFrame>,
            r is Some ==> r->0.wf(),
    {
        let n = self.next;
        self.next = n + 1;
        let r = nth_usable_frame(&self.regions, n);
        proof {
            lemma_usable_frames_aligned(self.regions@);
        }
        r
    }
}

/// The frame at index `n` of the usable-frame sequence of `regions`, or
/// `None` when fewer than `n + 1` usable frames exist.
fn nth_usable_frame(regions: &Vec<MemoryRegion>, n: usize) -> (r: Option<PhysFrame>)
    ensures
        (n as int) < usable_frames_of(regions@).len() ==> r == Some(
            PhysFrame { start: usable_frames_of(regions@)[n as int] },
        ),
        (n as int) >= usable_frames_of(regions@).len() ==> r == None::<PhysFrame>,
{
    let mut i: usize = 0;
    let mut rem: u64 = n as u64;
    while i < regions.len()
        invariant
            0 <= i <= regions@.len(),
            usable_frames_of(regions@.take(i as int)).len() <= n as int,
            rem == n as int - usable_frames_of(regions@.take(i as int)).len(),
        decreases regions@.len() - i,
    {
        let region = regions[i];
        proof {
            assert(regions@.take(i as int + 1) =~= regions@.take(i as int).push(regions@[i as int]));
            lemma_usable_frames_push(regions@.take(i as int), regions@[i as int]);
        }
        if matches!(region.kind, MemoryRegionKind::Usable) && region.start < region.end {
            let count: u64 = (region.end - region.start - 1) / PAGE_SIZE + 1;
            if rem < count {
                proof {
                    lemma_usable_frames_split(regions@, i as int);
                    assert(regions@.skip(i as int)[0] == region);
                    assert(regions@.skip(i as int).skip(1) =~= regions@.skip(i as int + 1));
                    assert(usable_frames_of(regions@.skip(i as int)) == region_usable_frames(region)
                        + usable_frames_of(regions@.skip(i as int + 1)));
                    assert(usable_frames_of(regions@)[n as int] == region_usable_frames(
                        region,
                    )[rem as int]);
                    vstd::arithmetic::div_mod::lemma_fundamental_div_mod(
                        region.end - region.start - 1,
                        PAGE_SIZE as int,
                    );
                }
                let addr: u64 = region.start + PAGE_SIZE * rem;
                let aligned: u64 = addr - addr % PAGE_SIZE;
                return Some(PhysFrame { start: aligned });
            }
            rem = rem - count;
        }
        i = i + 1;
    }
    proof {
        assert(regions@.take(regions@.len() as int) =~= regions@);
    }
    None
}

/// The direct physical map: a single additive offset, supplied by
/// firmware, under which `virtual = physical + offset` reaches any
/// physical address. Established once at boot and trusted thereafter by
/// all page-table walks.
#[derive(Clone, Copy, Debug, PartialEq, Eq, Structural)]
pub struct DirectMap {
    pub offset: u64,
}

/// Establishes the direct-mapped view of physical memory from the
/// firmware-supplied offset.
pub fn init(physical_memory_offset: u64) -> (r: DirectMap)
    ensures
        r.offset == physical_memory_offset,
{
    DirectMap { offset: physical_memory_offset }
}

impl DirectMap {
    /// Translates a physical address to the virtual address that reaches
    /// it under the direct map.
    pub fn translate(&self, physical: u64) -> (r: u64)
        requires
            physical + self.offset <= u64::MAX,
        ensures
            r == physical + self.offset,
    {
        physical + self.offset
    }
}

} // verus!
