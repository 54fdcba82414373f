use halogen_os::memory::{
    init, BootInfoFrameAllocator, MemoryRegion, MemoryRegionKind, PhysFrame,
};

fn usable(start: u64, end: u64) -> MemoryRegion {
    MemoryRegion { start, end, kind: MemoryRegionKind::Usable }
}

#[test]
fn two_usable_regions_yield_seven_frames_then_none() {
    let regions = vec![usable(0, 8192), usable(8192, 28672)];
    let mut allocator = BootInfoFrameAllocator::new(regions);
    let mut issued: Vec<u64> = Vec::new();
    for _ in 0..7 {
        let frame = allocator.allocate_frame().expect("a usable frame was left");
        issued.push(frame.start);
    }
    assert_eq!(issued, vec![0, 4096, 8192, 12288, 16384, 20480, 24576]);
    assert!(issued.windows(2).all(|w| w[0] < w[1]));
    assert_eq!(allocator.allocate_frame(), None);
    assert_eq!(allocator.allocate_frame(), None);
}

#[test]
fn only_usable_regions_contribute_frames() {
    let regions = vec![
        usable(0, 4096),
        MemoryRegion { start: 4096, end: 16384, kind: MemoryRegionKind::Reserved },
        MemoryRegion { start: 16384, end: 20480, kind: MemoryRegionKind::Bootloader },
        usable(20480, 24576),
    ];
    let mut allocator = BootInfoFrameAllocator::new(regions);
    assert_eq!(allocator.allocate_frame(), Some(PhysFrame { start: 0 }));
    assert_eq!(allocator.allocate_frame(), Some(PhysFrame { start: 20480 }));
    assert_eq!(allocator.allocate_frame(), None);
}

#[test]
fn empty_map_has_no_frames() {
    let mut allocator = BootInfoFrameAllocator::new(Vec::new());
    assert_eq!(allocator.allocate_frame(), None);
}

#[test]
fn empty_region_contributes_nothing() {
    let regions = vec![usable(4096, 4096), usable(8192, 12288)];
    let mut allocator = BootInfoFrameAllocator::new(regions);
    assert_eq!(allocator.allocate_frame(), Some(PhysFrame { start: 8192 }));
    assert_eq!(allocator.allocate_frame(), None);
}

#[test]
fn frames_from_unaligned_regions_stay_page_aligned() {
    let regions = vec![usable(100, 8292)];
    let mut allocator = BootInfoFrameAllocator::new(regions);
    assert_eq!(allocator.allocate_frame(), Some(PhysFrame { start: 0 }));
    assert_eq!(allocator.allocate_frame(), Some(PhysFrame { start: 4096 }));
    assert_eq!(allocator.allocate_frame(), None);
}

#[test]
fn direct_map_adds_the_firmware_offset() {
    let map = init(0x1_0000_0000);
    assert_eq!(map.offset, 0x1_0000_0000);
    assert_eq!(map.translate(0), 0x1_0000_0000);
    assert_eq!(map.translate(0x2000), 0x1_0000_2000);
}
