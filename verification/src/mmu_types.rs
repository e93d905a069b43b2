//! Memory Management Unit types: page slices, MMIO regions and page pools.

use vstd::prelude::*;
use crate::address::{Address, AddressType, Physical, Virtual};
use crate::common::{is_power_of_two, spec_align_down, lemma_align_down_properties};
use vstd::arithmetic::power2::pow2;
use core::marker::PhantomData;

verus! {

broadcast use crate::address::lemma_from_value;

/// Size of the kernel's translation granule (64 KiB).
pub const GRANULE_SIZE: usize = 0x1_0000;

/// log2 of the kernel's translation granule.
pub const GRANULE_SHIFT: usize = 16;

/// The granule size is a power of two.
pub proof fn lemma_granule_is_power_of_two()
    ensures
        is_power_of_two(GRANULE_SIZE),
{
    vstd::arithmetic::power2::lemma2_to64();
    assert(GRANULE_SIZE as nat == pow2(16));
}

/// Shifting right by the granule shift is division by the granule size.
pub proof fn lemma_shift_is_div(x: usize)
    ensures
        x >> 16usize == x / 0x1_0000,
{
    assert(x >> 16usize == x / 0x1_0000) by (bit_vector);
}

/// Architecture agnostic memory attributes.
#[derive(Copy, Clone, PartialEq, Eq, Structural)]
pub enum MemAttributes {
    CacheableDRAM,
    Device,
}

/// Architecture agnostic access permissions.
#[derive(Copy, Clone, PartialEq, Eq, Structural)]
pub enum AccessPermissions {
    ReadOnly,
    ReadWrite,
}

/// Collection of memory attributes.
#[derive(Copy, Clone, PartialEq, Eq, Structural)]
pub struct AttributeFields {
    pub mem_attributes: MemAttributes,
    pub acc_perms: AccessPermissions,
    pub execute_never: bool,
}

/// Generic page type: one granule of memory.
pub struct Page<ATYPE: AddressType> {
    inner: [u8; 0x1_0000],
    _address_type: PhantomData<ATYPE>,
}

//------------------------------------------------------------------------------
// PageSliceDescriptor
//------------------------------------------------------------------------------

/// Type describing a slice of pages.
pub struct PageSliceDescriptor<ATYPE: AddressType> {
    start: Address<ATYPE>,
    num_pages: usize,
}

impl<ATYPE: AddressType> Clone for PageSliceDescriptor<ATYPE> {
    fn clone(&self) -> (r: Self)
        ensures
            r == *self,
    {
        proof { use_type_invariant(self); }
        PageSliceDescriptor { start: self.start, num_pages: self.num_pages }
    }
}

impl<ATYPE: AddressType> Copy for PageSliceDescriptor<ATYPE> {}

impl<ATYPE: AddressType> PageSliceDescriptor<ATYPE> {
    /// A page slice starts on a granule boundary and holds at least one page.
    #[verifier::type_invariant]
    spec fn inv(self) -> bool {
        &&& self.start@ % GRANULE_SIZE == 0
        &&& self.num_pages > 0
    }

    /// The start address of the slice.
    pub closed spec fn spec_start(self) -> usize {
        self.start@
    }

    /// The number of pages of the slice.
    pub closed spec fn spec_num_pages(self) -> usize {
        self.num_pages
    }

    /// The number of bytes the slice spans.
    pub open spec fn spec_size(self) -> int {
        self.spec_num_pages() * GRANULE_SIZE
    }

    /// The slice lies within the address space.
    pub open spec fn fits(self) -> bool {
        self.spec_start() + self.spec_size() <= usize::MAX
    }

    /// `addr` lies within the slice.
    pub open spec fn covers(self, addr: int) -> bool {
        self.spec_start() <= addr < self.spec_start() + self.spec_size()
    }

    /// The slice starts on a granule boundary and holds at least one page.
    pub closed spec fn wf(self) -> bool {
        self.inv()
    }

    /// What well-formedness of a page slice means.
    pub proof fn lemma_wf(self)
        requires
            self.wf(),
        ensures
            self.spec_start() % GRANULE_SIZE == 0,
            self.spec_num_pages() > 0,
    {
    }

    /// Create an instance.
    pub fn from_addr(start: Address<ATYPE>, num_pages: usize) -> (r: Self)
        requires
            start@ % GRANULE_SIZE == 0,
            num_pages > 0,
        ensures
            r.wf(),
            r.spec_start() == start@,
            r.spec_num_pages() == num_pages,
    {
        Self { start, num_pages }
    }

    /// Return the number of pages the slice describes.
    pub fn num_pages(&self) -> (r: usize)
        ensures
            r == self.spec_num_pages(),
    {
        self.num_pages
    }

    /// Return the memory size this descriptor spans.
    pub fn size(&self) -> (r: usize)
        requires
            self.spec_size() <= usize::MAX,
        ensures
            r == self.spec_size(),
    {
        self.num_pages * GRANULE_SIZE
    }

    /// Return the start address.
    pub fn start_addr(&self) -> (r: Address<ATYPE>)
        ensures
            r@ == self.spec_start(),
    {
        self.start
    }

    /// Return the exclusive end address.
    pub fn end_addr(&self) -> (r: Address<ATYPE>)
        requires
            self.fits(),
        ensures
            r@ == self.spec_start() + self.spec_size(),
    {
        self.start + self.size()
    }

    /// Return the inclusive end address.
    pub fn end_addr_inclusive(&self) -> (r: Address<ATYPE>)
        requires
            self.spec_size() <= usize::MAX,
            self.spec_start() + self.spec_size() - 1 <= usize::MAX,
        ensures
            r@ == self.spec_start() + self.spec_size() - 1,
    {
        proof { use_type_invariant(self); }
        self.start + (self.size() - 1)
    }

    /// Check if an address is contained within this descriptor.
    pub fn contains(&self, addr: Address<ATYPE>) -> (r: bool)
        requires
            self.spec_size() <= usize::MAX,
            self.spec_start() + self.spec_size() - 1 <= usize::MAX,
        ensures
            r == self.covers(addr@ as int),
    {
        (addr.into_usize() >= self.start_addr().into_usize()) && (addr.into_usize()
            <= self.end_addr_inclusive().into_usize())
    }
}

//------------------------------------------------------------------------------
// MMIODescriptor
//------------------------------------------------------------------------------

/// An MMIO descriptor for use in device drivers.
pub struct MMIODescriptor {
    start_addr: Address<Physical>,
    size: usize,
}

impl Clone for MMIODescriptor {
    fn clone(&self) -> (r: Self)
        ensures
            r == *self,
    {
        proof { use_type_invariant(self); }
        MMIODescriptor { start_addr: self.start_addr, size: self.size }
    }
}

impl Copy for MMIODescriptor {}

impl MMIODescriptor {
    /// An MMIO region is not empty.
    #[verifier::type_invariant]
    spec fn inv(self) -> bool {
        self.size > 0
    }

    /// The start address of the region.
    pub closed spec fn spec_start(self) -> usize {
        self.start_addr@
    }

    /// The size of the region in bytes.
    pub closed spec fn spec_size(self) -> usize {
        self.size
    }

    /// The inclusive end address of the region.
    pub open spec fn spec_end_inclusive(self) -> int {
        self.spec_start() + self.spec_size() - 1
    }

    /// The region is not empty.
    pub closed spec fn wf(self) -> bool {
        self.inv()
    }

    /// What well-formedness of an MMIO region means.
    pub proof fn lemma_wf(self)
        requires
            self.wf(),
        ensures
            self.spec_size() > 0,
    {
    }

    /// Create an instance.
    pub fn new(start_addr: Address<Physical>, size: usize) -> (r: Self)
        requires
            size > 0,
        ensures
            r.wf(),
            r.spec_start() == start_addr@,
            r.spec_size() == size,
    {
        Self { start_addr, size }
    }

    /// Return the start address.
    pub fn start_addr(&self) -> (r: Address<Physical>)
        ensures
            r@ == self.spec_start(),
    {
        self.start_addr
    }

    /// Return the inclusive end address.
    pub fn end_addr_inclusive(&self) -> (r: Address<Physical>)
        requires
            self.spec_end_inclusive() <= usize::MAX,
        ensures
            r@ == self.spec_end_inclusive(),
    {
        proof { use_type_invariant(self); }
        self.start_addr + (self.size - 1)
    }

    /// Return the size.
    pub fn size(&self) -> (r: usize)
        ensures
            r == self.spec_size(),
    {
        self.size
    }
}

/// The first page of the slice of pages that covers an MMIO region.
pub open spec fn mmio_first_page(desc: MMIODescriptor) -> int {
    spec_align_down(desc.spec_start() as int, GRANULE_SIZE as int)
}

/// The last address of an MMIO region that lies in the address space.
pub open spec fn mmio_last_addr(desc: MMIODescriptor) -> int {
    if desc.spec_end_inclusive() <= usize::MAX {
        desc.spec_end_inclusive()
    } else {
        usize::MAX as int
    }
}

/// The number of pages of the slice of pages that covers an MMIO region, up to the end of the
/// address space.
pub open spec fn mmio_num_pages(desc: MMIODescriptor) -> int {
    (mmio_last_addr(desc) - mmio_first_page(desc)) / (GRANULE_SIZE as int) + 1
}

impl From<MMIODescriptor> for PageSliceDescriptor<Physical> {
    /// The pages that cover an MMIO region; a region that runs past the end of the address space
    /// is covered up to that end.
    fn from(desc: MMIODescriptor) -> (r: Self) {
        proof {
            use_type_invariant(&desc);
            lemma_granule_is_power_of_two();
            lemma_align_down_properties(desc.spec_start() as int, GRANULE_SIZE as int);
        }
        let start_page_addr = desc.start_addr.align_down(GRANULE_SIZE);
        let last = match desc.start_addr.into_usize().checked_add(desc.size - 1) {
            Some(end) => end,
            None => usize::MAX,
        };
        let diff = last - start_page_addr.into_usize();
        proof { lemma_shift_is_div(diff); }
        let len = (diff >> GRANULE_SHIFT) + 1;
        proof {
            Address::<Physical>::lemma_view_injective(
                start_page_addr,
                Address::from_value(mmio_first_page(desc) as usize),
            );
        }

        Self { start: start_page_addr, num_pages: len }
    }
}

impl vstd::std_specs::convert::FromSpecImpl<MMIODescriptor> for PageSliceDescriptor<Physical> {
    open spec fn obeys_from_spec() -> bool {
        true
    }

    open spec fn from_spec(desc: MMIODescriptor) -> Self {
        Self::from_parts(mmio_first_page(desc) as usize, mmio_num_pages(desc) as usize)
    }
}

impl From<PageSliceDescriptor<Virtual>> for PageSliceDescriptor<Physical> {
    /// The physical pages behind identity-mapped virtual pages.
    fn from(desc: PageSliceDescriptor<Virtual>) -> (r: Self) {
        proof { use_type_invariant(&desc); }
        let start = Address::new(desc.start.into_usize());
        proof {
            Address::<Physical>::lemma_view_injective(start, Address::from_value(desc.spec_start()));
        }
        Self { start, num_pages: desc.num_pages }
    }
}

impl vstd::std_specs::convert::FromSpecImpl<PageSliceDescriptor<Virtual>> for PageSliceDescriptor<Physical> {
    open spec fn obeys_from_spec() -> bool {
        true
    }

    open spec fn from_spec(desc: PageSliceDescriptor<Virtual>) -> Self {
        Self::from_parts(desc.spec_start(), desc.spec_num_pages())
    }
}

impl PageSliceDescriptor<Physical> {
    /// The physical page slice with the given start and page count.
    pub closed spec fn from_parts(start: usize, num_pages: usize) -> Self {
        PageSliceDescriptor { start: Address::from_value(start), num_pages }
    }

    /// The parts of a slice built from parts are the parts it was built from.
    pub proof fn lemma_from_parts(start: usize, num_pages: usize)
        ensures
            Self::from_parts(start, num_pages).spec_start() == start,
            Self::from_parts(start, num_pages).spec_num_pages() == num_pages,
            start % GRANULE_SIZE == 0 && num_pages > 0 ==> Self::from_parts(start, num_pages).wf(),
    {
        Address::<Physical>::lemma_view_injective(Address::from_value(start), Address::from_value(start));
    }
}

//------------------------------------------------------------------------------
// MemoryRegion
//------------------------------------------------------------------------------

/// A possibly empty, granule-aligned region of pages: `[start, end_exclusive)`.
pub struct MemoryRegion<ATYPE: AddressType> {
    start: Address<ATYPE>,
    end_exclusive: Address<ATYPE>,
}

/// Message of the error that an allocation's end does not fit into the address space.
pub open spec fn overflow_message() -> Seq<char> {
    "Overflow while calculating left_end_exclusive"@
}

/// Message of the error that a region holds fewer pages than requested.
pub open spec fn not_enough_pages_message() -> Seq<char> {
    "Not enough free pages"@
}

impl<ATYPE: AddressType> MemoryRegion<ATYPE> {
    /// A region is ordered and starts and ends on granule boundaries.
    #[verifier::type_invariant]
    spec fn inv(self) -> bool {
        &&& self.start@ <= self.end_exclusive@
        &&& self.start@ % GRANULE_SIZE == 0
        &&& self.end_exclusive@ % GRANULE_SIZE == 0
    }

    /// The region is ordered and starts and ends on granule boundaries.
    pub closed spec fn wf(self) -> bool {
        self.inv()
    }

    /// The first address of the region.
    pub closed spec fn spec_start(self) -> usize {
        self.start@
    }

    /// The first address after the region.
    pub closed spec fn spec_end_exclusive(self) -> usize {
        self.end_exclusive@
    }

    /// The number of pages in the region.
    pub open spec fn spec_num_pages(self) -> int {
        (self.spec_end_exclusive() - self.spec_start()) / (GRANULE_SIZE as int)
    }

    /// What well-formedness of a region means.
    pub proof fn lemma_wf(self)
        requires
            self.wf(),
        ensures
            self.spec_start() <= self.spec_end_exclusive(),
            self.spec_start() % GRANULE_SIZE == 0,
            self.spec_end_exclusive() % GRANULE_SIZE == 0,
    {
    }

    /// Create an instance.
    pub fn new(start: Address<ATYPE>, end_exclusive: Address<ATYPE>) -> (r: Self)
        requires
            start@ <= end_exclusive@,
            start@ % GRANULE_SIZE == 0,
            end_exclusive@ % GRANULE_SIZE == 0,
        ensures
            r.wf(),
            r.spec_start() == start@,
            r.spec_end_exclusive() == end_exclusive@,
    {
        Self { start, end_exclusive }
    }

    /// The start address.
    pub fn start_addr(&self) -> (r: Address<ATYPE>)
        ensures
            r@ == self.spec_start(),
    {
        self.start
    }

    /// The exclusive end address.
    pub fn end_exclusive_addr(&self) -> (r: Address<ATYPE>)
        ensures
            r@ == self.spec_end_exclusive(),
    {
        self.end_exclusive
    }

    /// The number of pages in the region.
    pub fn num_pages(&self) -> (r: usize)
        ensures
            r == self.spec_num_pages(),
    {
        proof {
            use_type_invariant(self);
            lemma_shift_is_div((self.end_exclusive@ - self.start@) as usize);
        }
        (self.end_exclusive.into_usize() - self.start.into_usize()) >> GRANULE_SHIFT
    }

    /// Split off the first `num_pages` pages of the region: they are returned, and the region
    /// keeps the rest.
    pub fn take_first_n_pages(&mut self, num_pages: usize) -> (r: Result<Self, &'static str>)
        requires
            num_pages > 0,
        ensures
            final(self).wf(),
            take_first_n_pages_post(*old(self), num_pages, *final(self), r),
    {
        proof { use_type_invariant(&*self); }
        let count = num_pages;

        let left_end_exclusive = match count.checked_mul(GRANULE_SIZE) {
            None => return Err("Overflow while calculating left_end_exclusive"),
            Some(bytes) => match self.start.into_usize().checked_add(bytes) {
                None => return Err("Overflow while calculating left_end_exclusive"),
                Some(x) => x,
            },
        };

        if left_end_exclusive > self.end_exclusive.into_usize() {
            return Err("Not enough free pages");
        }

        let allocation = Self { start: self.start, end_exclusive: Address::new(left_end_exclusive) };
        self.start = Address::new(left_end_exclusive);

        Ok(allocation)
    }
}

/// The outcome of taking the first `num_pages` pages of region `old`, leaving region `new`
/// and returning `r`.
pub open spec fn take_first_n_pages_post<ATYPE: AddressType>(
    old: MemoryRegion<ATYPE>,
    num_pages: usize,
    new: MemoryRegion<ATYPE>,
    r: Result<MemoryRegion<ATYPE>, &'static str>,
) -> bool {
    let left_end = old.spec_start() + num_pages * GRANULE_SIZE;
    &&& new.spec_end_exclusive() == old.spec_end_exclusive()
    &&& match r {
        Ok(allocation) => {
            &&& left_end <= old.spec_end_exclusive()
            &&& allocation.wf()
            &&& allocation.spec_start() == old.spec_start()
            &&& allocation.spec_end_exclusive() == left_end
            &&& new.spec_start() == left_end
        },
        Err(e) => {
            &&& new.spec_start() == old.spec_start()
            &&& left_end > usize::MAX ==> e@ == overflow_message()
            &&& left_end <= usize::MAX ==> left_end > old.spec_end_exclusive() && e@
                == not_enough_pages_message()
        },
    }
}

/// The page slice made from an MMIO region is the smallest granule-aligned slice that covers
/// the region: its first page holds the region's first byte and its last page holds the
/// region's last byte.
pub proof fn lemma_mmio_page_cover(desc: MMIODescriptor)
    requires
        desc.wf(),
        desc.spec_end_inclusive() <= usize::MAX,
    ensures
        ({
            let pages = <PageSliceDescriptor<Physical> as vstd::std_specs::convert::FromSpec<
                MMIODescriptor,
            >>::from_spec(desc);
            &&& pages.wf()
            &&& pages.spec_start() <= desc.spec_start() < pages.spec_start() + GRANULE_SIZE
            &&& pages.covers(desc.spec_start() as int)
            &&& pages.covers(desc.spec_end_inclusive())
            &&& pages.spec_start() + (pages.spec_num_pages() - 1) * GRANULE_SIZE
                <= desc.spec_end_inclusive()
        }),
{
    desc.lemma_wf();
    lemma_align_down_properties(desc.spec_start() as int, GRANULE_SIZE as int);
    let f = mmio_first_page(desc);
    let e = desc.spec_end_inclusive();
    vstd::arithmetic::div_mod::lemma_fundamental_div_mod(e - f, GRANULE_SIZE as int);
    PageSliceDescriptor::<Physical>::lemma_from_parts(f as usize, mmio_num_pages(desc) as usize);
}

} // verus!
