use nucleus::x86_64::mm::early::{Allocator, MemoryRegion, MemoryRegionType};
use nucleus::x86_64::mm::PAGE_SIZE;

fn region(base: u64, len: u64, typ: MemoryRegionType) -> MemoryRegion {
    MemoryRegion { base, len, typ }
}

#[test]
fn page_size() {
    assert_eq!(PAGE_SIZE, 0x1000);
}

#[test]
fn pages_come_from_the_front_of_the_first_region() {
    let mut map = [
        region(0x1000, 0x3000, MemoryRegionType::Usable),
        region(0x10000, 0x800, MemoryRegionType::Usable),
    ];
    {
        let mut allocator = Allocator::new(&mut map);
        assert_eq!(allocator.allocate(), Some(0x1000));
        assert_eq!(allocator.mmap[0], region(0x2000, 0x2000, MemoryRegionType::Usable));
        assert_eq!(allocator.allocate(), Some(0x2000));
        assert_eq!(allocator.mmap[0], region(0x3000, 0x1000, MemoryRegionType::Usable));
        assert_eq!(allocator.allocate(), Some(0x3000));
        assert_eq!(allocator.mmap[0], region(0x4000, 0, MemoryRegionType::Usable));
        assert_eq!(allocator.allocate(), None);
        assert_eq!(allocator.allocate(), None);
    }
    assert_eq!(
        map,
        [
            region(0x4000, 0, MemoryRegionType::Usable),
            region(0x10000, 0x800, MemoryRegionType::Usable),
        ]
    );
}

#[test]
fn regions_that_may_not_be_used_are_skipped() {
    let mut map = [
        region(0x0, 0x10_0000, MemoryRegionType::Reserved),
        region(0x10_0000, 0x2000, MemoryRegionType::KernelAndModules),
        region(0x20_0000, 0x1000, MemoryRegionType::AcpiReclaimable),
        region(0x30_0000, 0x1000, MemoryRegionType::AcpiNvs),
        region(0x40_0000, 0x1000, MemoryRegionType::BadMemory),
        region(0x50_0000, 0x1000, MemoryRegionType::Framebuffer),
        region(0x60_0000, 0x2000, MemoryRegionType::Usable),
    ];
    let before = map;
    let mut allocator = Allocator::new(&mut map);
    assert_eq!(allocator.allocate(), Some(0x60_0000));
    assert_eq!(allocator.allocate(), Some(0x60_1000));
    assert_eq!(allocator.allocate(), None);
    assert_eq!(map[..6], before[..6]);
    assert_eq!(map[6], region(0x60_2000, 0, MemoryRegionType::Usable));
}

#[test]
fn memory_of_the_boot_loader_may_be_used() {
    let mut map = [
        region(0x8000, 0x1000, MemoryRegionType::BootloaderReclaimable),
        region(0x10000, 0x1000, MemoryRegionType::Usable),
    ];
    let mut allocator = Allocator::new(&mut map);
    assert_eq!(allocator.allocate(), Some(0x8000));
    assert_eq!(allocator.allocate(), Some(0x10000));
    assert_eq!(allocator.allocate(), None);
    assert_eq!(
        map,
        [
            region(0x9000, 0, MemoryRegionType::BootloaderReclaimable),
            region(0x11000, 0, MemoryRegionType::Usable),
        ]
    );
}

#[test]
fn a_region_short_of_a_page_is_passed_over() {
    let mut map = [
        region(0x1000, 0xFFF, MemoryRegionType::Usable),
        region(0x5000, 0x1000, MemoryRegionType::Usable),
    ];
    let mut allocator = Allocator::new(&mut map);
    assert_eq!(allocator.allocate(), Some(0x5000));
    assert_eq!(allocator.allocate(), None);
    assert_eq!(map[0], region(0x1000, 0xFFF, MemoryRegionType::Usable));
}

#[test]
fn an_empty_map_has_nothing_to_give() {
    let mut map: [MemoryRegion; 0] = [];
    let mut allocator = Allocator::new(&mut map);
    assert_eq!(allocator.allocate(), None);
}

#[test]
fn the_map_keeps_its_shape() {
    let mut map = [
        region(0x1000, 0x2000, MemoryRegionType::Reserved),
        region(0x3000, 0x5000, MemoryRegionType::Usable),
        region(0x8000, 0x3000, MemoryRegionType::BootloaderReclaimable),
    ];
    let before = map;
    let mut pages = Vec::new();
    {
        let mut allocator = Allocator::new(&mut map);
        while let Some(page) = allocator.allocate() {
            pages.push(page);
        }
    }
    assert_eq!(pages, vec![0x3000, 0x4000, 0x5000, 0x6000, 0x7000, 0x8000, 0x9000, 0xA000]);
    assert_eq!(map.len(), before.len());
    for (now, then) in map.iter().zip(before.iter()) {
        assert_eq!(now.typ, then.typ);
        assert_eq!(now.base + now.len, then.base + then.len);
    }
    for page in pages {
        assert_eq!(page % PAGE_SIZE as u64, 0);
    }
}

#[test]
fn the_last_page_of_the_address_space() {
    let mut map = [region(0xFFFF_FFFF_FFFF_E000, 0x1000, MemoryRegionType::Usable)];
    let mut allocator = Allocator::new(&mut map);
    assert_eq!(allocator.allocate(), Some(0xFFFF_FFFF_FFFF_E000));
    assert_eq!(allocator.allocate(), None);
    assert_eq!(map[0], region(0xFFFF_FFFF_FFFF_F000, 0, MemoryRegionType::Usable));
}

#[test]
fn no_page_is_handed_out_twice() {
    let mut map = [
        region(0x10_0000, 0x4000, MemoryRegionType::Usable),
        region(0x0, 0x1000, MemoryRegionType::Reserved),
        region(0x20_0000, 0x3000, MemoryRegionType::BootloaderReclaimable),
        region(0x8000, 0x2000, MemoryRegionType::Usable),
    ];
    let mut pages = Vec::new();
    let mut allocator = Allocator::new(&mut map);
    while let Some(page) = allocator.allocate() {
        assert!(!pages.contains(&page));
        pages.push(page);
    }
    assert_eq!(pages.len(), 9);
    for region in map.iter() {
        for page in &pages {
            let held = region.base <= *page && *page < region.base + region.len;
            assert!(!held || region.typ == MemoryRegionType::Reserved);
        }
    }
}

#[test]
fn regions_without_pages_may_hold_anything() {
    let mut map = [
        region(u64::MAX, u64::MAX, MemoryRegionType::Reserved),
        region(u64::MAX, 0xFFF, MemoryRegionType::Usable),
        region(0x7000, 0x1000, MemoryRegionType::Usable),
    ];
    let mut allocator = Allocator::new(&mut map);
    assert_eq!(allocator.allocate(), Some(0x7000));
    assert_eq!(allocator.allocate(), None);
    assert_eq!(map[0], region(u64::MAX, u64::MAX, MemoryRegionType::Reserved));
    assert_eq!(map[1], region(u64::MAX, 0xFFF, MemoryRegionType::Usable));
}
