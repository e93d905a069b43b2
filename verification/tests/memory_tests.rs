use rpi_kernel::address::{Address, Physical, Virtual};
use rpi_kernel::memory::zero_volatile;
use rpi_kernel::mmu_types::{MMIODescriptor, MemoryRegion, Page, PageSliceDescriptor, GRANULE_SIZE};
use rpi_kernel::page_alloc::PageAllocator;

#[test]
fn address_arithmetic() {
    let a: Address<Physical> = Address::new(0x1234);
    assert_eq!(a.into_usize(), 0x1234);
    assert_eq!((a + 0x10).into_usize(), 0x1244);
    assert_eq!((a - 0x34).into_usize(), 0x1200);
    assert_eq!(a.align_down(0x1000).into_usize(), 0x1000);

    let mut b: Address<Virtual> = Address::new(0x1000);
    b.add_assign(Address::new(0x234));
    assert_eq!(b.into_usize(), 0x1234);
    b.sub_assign(Address::new(0x1000));
    assert_eq!(b.into_usize(), 0x234);

    assert!(Address::<Virtual>::new(5) == Address::new(5));
    assert!(!(Address::<Virtual>::new(5) == Address::new(6)));
}

#[test]
fn physical_address_display() {
    assert_eq!(Address::<Physical>::new(0x3F20_1000).to_display_string(), "0x00_3f20_1000");
    assert_eq!(Address::<Physical>::new(0).to_display_string(), "0x00_0000_0000");
    assert_eq!(Address::<Physical>::new(0xAB_CDEF_0123).to_display_string(), "0xab_cdef_0123");
}

#[test]
fn virtual_address_display() {
    assert_eq!(Address::<Virtual>::new(0x1_FFFF_0000).to_display_string(), "0x0000_0001_ffff_0000");
    assert_eq!(Address::<Virtual>::new(0x8_0000).to_display_string(), "0x0000_0000_0008_0000");
}

#[test]
fn page_slice_descriptor_bounds() {
    let d = PageSliceDescriptor::<Virtual>::from_addr(Address::new(0x2_0000), 3);
    assert_eq!(d.num_pages(), 3);
    assert_eq!(d.size(), 3 * GRANULE_SIZE);
    assert_eq!(d.start_addr().into_usize(), 0x2_0000);
    assert_eq!(d.end_addr().into_usize(), 0x5_0000);
    assert_eq!(d.end_addr_inclusive().into_usize(), 0x4_FFFF);
    assert!(d.contains(Address::new(0x2_0000)));
    assert!(d.contains(Address::new(0x4_FFFF)));
    assert!(!d.contains(Address::new(0x5_0000)));
    assert!(!d.contains(Address::new(0x1_FFFF)));
}

#[test]
fn mmio_descriptor_bounds() {
    let m = MMIODescriptor::new(Address::new(0x3F20_1000), 0x48);
    assert_eq!(m.start_addr().into_usize(), 0x3F20_1000);
    assert_eq!(m.end_addr_inclusive().into_usize(), 0x3F20_1047);
    assert_eq!(m.size(), 0x48);
}

#[test]
fn mmio_region_page_cover() {
    let small: PageSliceDescriptor<Physical> = MMIODescriptor::new(Address::new(0x3F20_1000), 0x48).into();
    assert_eq!(small.start_addr().into_usize(), 0x3F20_0000);
    assert_eq!(small.num_pages(), 1);

    let straddling: PageSliceDescriptor<Physical> =
        MMIODescriptor::new(Address::new(0x3F20_FFF0), 0x20).into();
    assert_eq!(straddling.start_addr().into_usize(), 0x3F20_0000);
    assert_eq!(straddling.num_pages(), 2);
    assert!(straddling.contains(Address::new(0x3F20_FFF0)));
    assert!(straddling.contains(Address::new(0x3F21_000F)));

    let exact: PageSliceDescriptor<Physical> = MMIODescriptor::new(Address::new(0x1_0000), 0x1_0000).into();
    assert_eq!(exact.start_addr().into_usize(), 0x1_0000);
    assert_eq!(exact.num_pages(), 1);
}

#[test]
fn identity_mapped_pages_keep_their_addresses() {
    let v = PageSliceDescriptor::<Virtual>::from_addr(Address::new(0x9_0000), 4);
    let p: PageSliceDescriptor<Physical> = v.into();
    assert_eq!(p.start_addr().into_usize(), 0x9_0000);
    assert_eq!(p.num_pages(), 4);
}

#[test]
fn region_take_first_pages() {
    let mut r = MemoryRegion::<Virtual>::new(Address::new(0x1_0000), Address::new(0x5_0000));
    assert_eq!(r.num_pages(), 4);
    match r.take_first_n_pages(1) {
        Ok(a) => {
            assert_eq!(a.start_addr().into_usize(), 0x1_0000);
            assert_eq!(a.end_exclusive_addr().into_usize(), 0x2_0000);
            assert_eq!(a.num_pages(), 1);
        }
        Err(e) => panic!("unexpected error {}", e),
    }
    assert_eq!(r.start_addr().into_usize(), 0x2_0000);
    assert_eq!(r.num_pages(), 3);

    match r.take_first_n_pages(4) {
        Ok(_) => panic!("allocation beyond the region"),
        Err(e) => assert_eq!(e, "Not enough free pages"),
    }
    assert_eq!(r.start_addr().into_usize(), 0x2_0000);

    match r.take_first_n_pages(usize::MAX) {
        Ok(_) => panic!("allocation beyond the address space"),
        Err(e) => assert_eq!(e, "Overflow while calculating left_end_exclusive"),
    }
    assert_eq!(r.num_pages(), 3);

    match r.take_first_n_pages(3) {
        Ok(a) => assert_eq!(a.end_exclusive_addr().into_usize(), 0x5_0000),
        Err(e) => panic!("unexpected error {}", e),
    }
    assert_eq!(r.num_pages(), 0);
}

#[test]
fn page_allocator_hands_out_adjacent_regions() {
    let mut alloc = PageAllocator::<Virtual>::new();
    match alloc.alloc_pages(1) {
        Ok(_) => panic!("allocation from an uninitialized allocator"),
        Err(e) => assert_eq!(e, "Allocator not initialized"),
    }

    alloc.init(MemoryRegion::new(Address::new(0x1F00_0000), Address::new(0x2000_0000)));
    // A second pool is ignored.
    alloc.init(MemoryRegion::new(Address::new(0x0), Address::new(0x1_0000)));

    let first = match alloc.alloc_pages(2) {
        Ok(a) => a,
        Err(e) => panic!("unexpected error {}", e),
    };
    let second = match alloc.alloc_pages(3) {
        Ok(a) => a,
        Err(e) => panic!("unexpected error {}", e),
    };
    assert_eq!(first.start_addr().into_usize(), 0x1F00_0000);
    assert_eq!(first.end_exclusive_addr().into_usize(), 0x1F02_0000);
    assert_eq!(second.start_addr().into_usize(), 0x1F02_0000);
    assert_eq!(second.end_exclusive_addr().into_usize(), 0x1F05_0000);

    match alloc.alloc_pages(0x100) {
        Ok(_) => panic!("allocation beyond the pool"),
        Err(e) => assert_eq!(e, "Not enough free pages"),
    }
    match alloc.alloc_pages(0xFB) {
        Ok(a) => assert_eq!(a.end_exclusive_addr().into_usize(), 0x2000_0000),
        Err(e) => panic!("unexpected error {}", e),
    }
}

#[test]
fn zero_volatile_clears_every_word() {
    let mut words = [1usize, 2, 3, usize::MAX];
    zero_volatile(&mut words);
    assert_eq!(words, [0, 0, 0, 0]);
    let mut empty: [usize; 0] = [];
    zero_volatile(&mut empty);
}

#[test]
fn page_is_one_granule() {
    assert_eq!(core::mem::size_of::<Page<Physical>>(), GRANULE_SIZE);
    assert_eq!(core::mem::size_of::<Page<Virtual>>(), GRANULE_SIZE);
}

#[test]
fn mmio_region_at_the_top_of_the_address_space() {
    let m = MMIODescriptor::new(Address::new(usize::MAX - 0xF), 0x100);
    assert_eq!(m.size(), 0x100);
    let pages: PageSliceDescriptor<Physical> = m.into();
    assert_eq!(pages.start_addr().into_usize(), (usize::MAX - 0xF) & !0xFFFF);
    assert_eq!(pages.num_pages(), 1);
}

#[test]
fn page_allocator_reports_initialization() {
    let mut alloc = PageAllocator::<Virtual>::new();
    assert!(!alloc.is_initialized());
    alloc.init(MemoryRegion::new(Address::new(0x1_0000), Address::new(0x2_0000)));
    assert!(alloc.is_initialized());
}
