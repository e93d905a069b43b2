//! Board support: the Raspberry Pi 3 and 4 memory maps and the kernel binary's page layout.

use vstd::prelude::*;
use crate::address::{Address, Physical, Virtual};
use crate::common::{align_down, spec_align_down};
use crate::mmu_types::{
    AccessPermissions, AttributeFields, GRANULE_SHIFT, GRANULE_SIZE, MemAttributes,
    PageSliceDescriptor, lemma_granule_is_power_of_two, lemma_shift_is_div,
};

verus! {

/// The boards this kernel supports.
#[derive(Copy, Clone, PartialEq, Eq, Structural)]
pub enum Board {
    RaspberryPi3,
    RaspberryPi4,
}

/// The inclusive end address of the physical memory map.
pub const END_INCLUSIVE: usize = 0xFFFF_FFFF;

/// The exclusive end address of the boot core's stack.
pub const BOOT_CORE_STACK_END: usize = 0x8_0000;

/// Offset of the GPIO block from the start of the MMIO area.
pub const GPIO_OFFSET: usize = 0x0020_0000;

/// Offset of the PL011 UART from the start of the MMIO area.
pub const UART_OFFSET: usize = 0x0020_1000;

/// Start of the MMIO area of the Raspberry Pi 3.
pub const RPI3_MMIO_START: usize = 0x3F00_0000;

/// Inclusive end of the MMIO area of the Raspberry Pi 3.
pub const RPI3_MMIO_END_INCLUSIVE: usize = 0x4000_FFFF;

/// Offset of the peripheral interrupt controller of the Raspberry Pi 3.
pub const RPI3_PERIPHERAL_IC_OFFSET: usize = 0x0000_B200;

/// Start of the MMIO area of the Raspberry Pi 4.
pub const RPI4_MMIO_START: usize = 0xFE00_0000;

/// Inclusive end of the MMIO area of the Raspberry Pi 4.
pub const RPI4_MMIO_END_INCLUSIVE: usize = 0xFF84_FFFF;

/// Board identification.
pub fn board_name(board: Board) -> (r: &'static str)
    ensures
        board == Board::RaspberryPi3 ==> r@ == "Raspberry Pi 3"@,
        board == Board::RaspberryPi4 ==> r@ == "Raspberry Pi 4"@,
{
    match board {
        Board::RaspberryPi3 => "Raspberry Pi 3",
        Board::RaspberryPi4 => "Raspberry Pi 4",
    }
}

/// Exclusive end address of the boot core's stack.
pub fn boot_core_stack_end() -> (r: usize)
    ensures
        r == BOOT_CORE_STACK_END,
{
    BOOT_CORE_STACK_END
}

/// Minimal code needed to bring up the console in QEMU (for testing only). For the RPi, nothing
/// needs to be done.
pub fn qemu_bring_up_console() {
}

/// Where the linker placed the sections of the kernel binary, and how large the physical address
/// space is.
#[derive(Copy, Clone)]
pub struct KernelBinaryLayout {
    pub virt_rx_start: usize,
    pub rx_size: usize,
    pub virt_rw_start: usize,
    pub rw_size: usize,
    pub virt_boot_core_stack_start: usize,
    pub boot_core_stack_size: usize,
    pub virt_boot_core_stack_guard_page_start: usize,
    pub boot_core_stack_guard_page_size: usize,
    pub phys_addr_space_end: usize,
}

/// A section that starts on a granule boundary and spans a positive whole number of granules
/// within the address space.
pub open spec fn section_ok(start: usize, size: usize) -> bool {
    &&& start % GRANULE_SIZE == 0
    &&& size > 0
    &&& size % GRANULE_SIZE == 0
    &&& start + size <= usize::MAX
}

impl KernelBinaryLayout {
    /// Every section of the binary is granule aligned and fits into the address space.
    pub open spec fn wf(self) -> bool {
        &&& section_ok(self.virt_rx_start, self.rx_size)
        &&& section_ok(self.virt_rw_start, self.rw_size)
        &&& section_ok(self.virt_boot_core_stack_start, self.boot_core_stack_size)
        &&& section_ok(
            self.virt_boot_core_stack_guard_page_start,
            self.boot_core_stack_guard_page_size,
        )
    }

    /// The sections follow one another in the order stack guard page, stack, code, data.
    pub open spec fn ordered(self) -> bool {
        &&& self.virt_boot_core_stack_guard_page_start + self.boot_core_stack_guard_page_size
            <= self.virt_boot_core_stack_start
        &&& self.virt_boot_core_stack_start + self.boot_core_stack_size <= self.virt_rx_start
        &&& self.virt_rx_start + self.rx_size <= self.virt_rw_start
    }
}

/// Helper function for calculating the number of pages the given parameter spans.
pub fn size_to_num_pages(size: usize) -> (r: usize)
    requires
        size > 0,
        size % GRANULE_SIZE == 0,
    ensures
        r == size / GRANULE_SIZE,
        r > 0,
{
    proof { lemma_shift_is_div(size); }
    size >> GRANULE_SHIFT
}

/// The page slice of a section.
pub open spec fn section_pages(desc: PageSliceDescriptor<Virtual>, start: usize, size: usize) -> bool {
    &&& desc.wf()
    &&& desc.spec_start() == start
    &&& desc.spec_num_pages() == size / GRANULE_SIZE
    &&& desc.spec_size() == size
}

proof fn lemma_section_size(size: usize)
    requires
        size % GRANULE_SIZE == 0,
    ensures
        (size / GRANULE_SIZE) * GRANULE_SIZE == size,
{
    vstd::arithmetic::div_mod::lemma_fundamental_div_mod(size as int, GRANULE_SIZE as int);
}

fn section_page_desc(start: usize, size: usize) -> (r: PageSliceDescriptor<Virtual>)
    requires
        section_ok(start, size),
    ensures
        section_pages(r, start, size),
{
    proof { lemma_section_size(size); }
    let num_pages = size_to_num_pages(size);
    PageSliceDescriptor::from_addr(Address::new(start), num_pages)
}

/// The Read+Execute (RX) pages of the kernel binary.
pub fn virt_rx_page_desc(layout: &KernelBinaryLayout) -> (r: PageSliceDescriptor<Virtual>)
    requires
        section_ok(layout.virt_rx_start, layout.rx_size),
    ensures
        section_pages(r, layout.virt_rx_start, layout.rx_size),
{
    section_page_desc(layout.virt_rx_start, layout.rx_size)
}

/// The Read+Write (RW) pages of the kernel binary.
pub fn virt_rw_page_desc(layout: &KernelBinaryLayout) -> (r: PageSliceDescriptor<Virtual>)
    requires
        section_ok(layout.virt_rw_start, layout.rw_size),
    ensures
        section_pages(r, layout.virt_rw_start, layout.rw_size),
{
    section_page_desc(layout.virt_rw_start, layout.rw_size)
}

/// The boot core's stack.
pub fn virt_boot_core_stack_page_desc(layout: &KernelBinaryLayout) -> (r: PageSliceDescriptor<
    Virtual,
>)
    requires
        section_ok(layout.virt_boot_core_stack_start, layout.boot_core_stack_size),
    ensures
        section_pages(r, layout.virt_boot_core_stack_start, layout.boot_core_stack_size),
{
    section_page_desc(layout.virt_boot_core_stack_start, layout.boot_core_stack_size)
}

/// The boot core's stack guard page.
pub fn virt_boot_core_stack_guard_page_desc(layout: &KernelBinaryLayout) -> (r:
    PageSliceDescriptor<Virtual>)
    requires
        section_ok(
            layout.virt_boot_core_stack_guard_page_start,
            layout.boot_core_stack_guard_page_size,
        ),
    ensures
        section_pages(
            r,
            layout.virt_boot_core_stack_guard_page_start,
            layout.boot_core_stack_guard_page_size,
        ),
{
    section_page_desc(
        layout.virt_boot_core_stack_guard_page_start,
        layout.boot_core_stack_guard_page_size,
    )
}

/// The physical pages behind identity-mapped virtual pages.
pub open spec fn identity_pages(
    phys: PageSliceDescriptor<Physical>,
    virt: PageSliceDescriptor<Virtual>,
) -> bool {
    &&& phys.wf()
    &&& phys.spec_start() == virt.spec_start()
    &&& phys.spec_num_pages() == virt.spec_num_pages()
}

/// The physical page slice of an identity-mapped section.
pub open spec fn phys_section_pages(desc: PageSliceDescriptor<Physical>, start: usize, size: usize) -> bool {
    &&& desc.wf()
    &&& desc.spec_start() == start
    &&& desc.spec_num_pages() == size / GRANULE_SIZE
}

fn identity_phys(virt: PageSliceDescriptor<Virtual>) -> (r: PageSliceDescriptor<Physical>)
    requires
        virt.wf(),
    ensures
        identity_pages(r, virt),
{
    proof {
        virt.lemma_wf();
        PageSliceDescriptor::<Physical>::lemma_from_parts(virt.spec_start(), virt.spec_num_pages());
    }
    PageSliceDescriptor::<Physical>::from(virt)
}

/// The Read+Execute (RX) pages of the kernel binary; the binary is identity mapped.
pub fn phys_rx_page_desc(layout: &KernelBinaryLayout) -> (r: PageSliceDescriptor<Physical>)
    requires
        section_ok(layout.virt_rx_start, layout.rx_size),
    ensures
        phys_section_pages(r, layout.virt_rx_start, layout.rx_size),
{
    identity_phys(virt_rx_page_desc(layout))
}

/// The Read+Write (RW) pages of the kernel binary; the binary is identity mapped.
pub fn phys_rw_page_desc(layout: &KernelBinaryLayout) -> (r: PageSliceDescriptor<Physical>)
    requires
        section_ok(layout.virt_rw_start, layout.rw_size),
    ensures
        phys_section_pages(r, layout.virt_rw_start, layout.rw_size),
{
    identity_phys(virt_rw_page_desc(layout))
}

/// The boot core's stack; the binary is identity mapped.
pub fn phys_boot_core_stack_page_desc(layout: &KernelBinaryLayout) -> (r: PageSliceDescriptor<
    Physical,
>)
    requires
        section_ok(layout.virt_boot_core_stack_start, layout.boot_core_stack_size),
    ensures
        phys_section_pages(r, layout.virt_boot_core_stack_start, layout.boot_core_stack_size),
{
    identity_phys(virt_boot_core_stack_page_desc(layout))
}

/// Pointer to the last page of the physical address space.
pub fn phys_addr_space_end_page(layout: &KernelBinaryLayout) -> (r: Address<Physical>)
    ensures
        r@ == spec_align_down(layout.phys_addr_space_end as int, GRANULE_SIZE as int),
{
    proof { lemma_granule_is_power_of_two(); }
    Address::new(align_down(layout.phys_addr_space_end, GRANULE_SIZE))
}

/// One mapping of kernel binary pages: a name, the virtual pages, the physical pages behind
/// them, and their attributes.
#[derive(Copy, Clone)]
pub struct KernelMapping {
    pub name: &'static str,
    pub virt_pages: PageSliceDescriptor<Virtual>,
    pub phys_pages: PageSliceDescriptor<Physical>,
    pub attributes: AttributeFields,
}

/// The attributes of the kernel's code and read-only data.
pub open spec fn rx_attributes() -> AttributeFields {
    AttributeFields {
        mem_attributes: MemAttributes::CacheableDRAM,
        acc_perms: AccessPermissions::ReadOnly,
        execute_never: false,
    }
}

/// The attributes of the kernel's data, bss and stack.
pub open spec fn rw_attributes() -> AttributeFields {
    AttributeFields {
        mem_attributes: MemAttributes::CacheableDRAM,
        acc_perms: AccessPermissions::ReadWrite,
        execute_never: true,
    }
}

/// A mapping of one identity-mapped section of the binary.
pub open spec fn section_mapping(
    m: KernelMapping,
    name: Seq<char>,
    start: usize,
    size: usize,
    attributes: AttributeFields,
) -> bool {
    &&& m.name@ == name
    &&& section_pages(m.virt_pages, start, size)
    &&& phys_section_pages(m.phys_pages, start, size)
    &&& m.attributes == attributes
}

/// The mappings that map the kernel binary, in the order in which they are made: code and
/// read-only data, then data and bss, then the boot core's stack.
pub open spec fn binary_mappings(layout: KernelBinaryLayout, ms: Seq<KernelMapping>) -> bool {
    &&& ms.len() == 3
    &&& binary_mapping(layout, 0, ms[0])
    &&& binary_mapping(layout, 1, ms[1])
    &&& binary_mapping(layout, 2, ms[2])
}

/// Mapping `i` of the kernel binary: code and read-only data, then data and bss, then the boot
/// core's stack.
pub open spec fn binary_mapping(layout: KernelBinaryLayout, i: int, m: KernelMapping) -> bool {
    if i == 0 {
        section_mapping(m, "Kernel code and RO data"@, layout.virt_rx_start, layout.rx_size,
            rx_attributes())
    } else if i == 1 {
        section_mapping(m, "Kernel data and bss"@, layout.virt_rw_start, layout.rw_size,
            rw_attributes())
    } else {
        section_mapping(m, "Kernel boot-core stack"@, layout.virt_boot_core_stack_start,
            layout.boot_core_stack_size, rw_attributes())
    }
}

/// The code, data and stack sections of the binary are well formed.
pub open spec fn mapped_sections_ok(layout: KernelBinaryLayout) -> bool {
    &&& section_ok(layout.virt_rx_start, layout.rx_size)
    &&& section_ok(layout.virt_rw_start, layout.rw_size)
    &&& section_ok(layout.virt_boot_core_stack_start, layout.boot_core_stack_size)
}

/// The mappings that map the kernel binary, in the order in which they are made: code and
/// read-only data, then data and bss, then the boot core's stack.
pub fn kernel_binary_mappings(layout: &KernelBinaryLayout) -> (r: Vec<KernelMapping>)
    requires
        mapped_sections_ok(*layout),
    ensures
        binary_mappings(*layout, r@),
{
    let mut r: Vec<KernelMapping> = Vec::new();
    r.push(
        KernelMapping {
            name: "Kernel code and RO data",
            virt_pages: virt_rx_page_desc(layout),
            phys_pages: phys_rx_page_desc(layout),
            attributes: AttributeFields {
                mem_attributes: MemAttributes::CacheableDRAM,
                acc_perms: AccessPermissions::ReadOnly,
                execute_never: false,
            },
        },
    );
    r.push(
        KernelMapping {
            name: "Kernel data and bss",
            virt_pages: virt_rw_page_desc(layout),
            phys_pages: phys_rw_page_desc(layout),
            attributes: AttributeFields {
                mem_attributes: MemAttributes::CacheableDRAM,
                acc_perms: AccessPermissions::ReadWrite,
                execute_never: true,
            },
        },
    );
    r.push(
        KernelMapping {
            name: "Kernel boot-core stack",
            virt_pages: virt_boot_core_stack_page_desc(layout),
            phys_pages: phys_boot_core_stack_page_desc(layout),
            attributes: AttributeFields {
                mem_attributes: MemAttributes::CacheableDRAM,
                acc_perms: AccessPermissions::ReadWrite,
                execute_never: true,
            },
        },
    );
    r
}

/// What mapping the kernel binary does next.
#[derive(Copy, Clone)]
pub enum MapStep {
    /// Make this mapping, then report its outcome.
    MakeMapping(KernelMapping),
    /// Mapping is over, with this result.
    Finished(Result<(), &'static str>),
}

/// Map the kernel binary, one mapping at a time: given the number of mappings made so far and
/// the outcome of the last one (`Ok` before the first), the next mapping to make, in order; or,
/// after the first mapping that failed, its error, with no further mapping; or `Ok` once all
/// three are made.
pub fn kernel_map_binary(layout: &KernelBinaryLayout, mapped: usize, last: Result<(), &'static str>) -> (r:
    MapStep)
    requires
        mapped_sections_ok(*layout),
        mapped <= 3,
    ensures
        last is Err ==> r == MapStep::Finished(last),
        last is Ok && mapped < 3 ==> r is MakeMapping && binary_mapping(*layout, mapped as int, r->MakeMapping_0),
        last is Ok && mapped == 3 ==> r == MapStep::Finished(Ok::<(), &'static str>(())),
{
    if last.is_err() {
        return MapStep::Finished(last);
    }
    if mapped == 3 {
        return MapStep::Finished(Ok(()));
    }
    let mappings = kernel_binary_mappings(layout);
    MapStep::MakeMapping(mappings[mapped])
}

/// The page slice of every well-formed section starts and ends on a granule boundary.
pub proof fn lemma_section_pages_aligned(desc: PageSliceDescriptor<Virtual>, start: usize, size: usize)
    requires
        section_ok(start, size),
        section_pages(desc, start, size),
    ensures
        desc.spec_start() % GRANULE_SIZE == 0,
        (desc.spec_start() + desc.spec_size()) % (GRANULE_SIZE as int) == 0,
        desc.spec_start() <= desc.spec_start() + desc.spec_size(),
{
}

/// The page slices of two sections, the first of which ends before the second starts, do not
/// overlap: neither contains the start or the last address of the other.
pub proof fn lemma_section_pages_disjoint(
    first: PageSliceDescriptor<Virtual>,
    first_start: usize,
    first_size: usize,
    second: PageSliceDescriptor<Virtual>,
    second_start: usize,
    second_size: usize,
)
    requires
        section_ok(first_start, first_size),
        section_ok(second_start, second_size),
        section_pages(first, first_start, first_size),
        section_pages(second, second_start, second_size),
        first_start + first_size <= second_start,
    ensures
        !first.covers(second.spec_start() as int),
        !first.covers(second.spec_start() + second.spec_size() - 1),
        !second.covers(first.spec_start() as int),
        !second.covers(first.spec_start() + first.spec_size() - 1),
{
}

/// `first` and `second` do not overlap: neither holds the first or the last address of the
/// other.
pub open spec fn slices_disjoint(first: PageSliceDescriptor<Virtual>, second: PageSliceDescriptor<Virtual>) -> bool {
    &&& !first.covers(second.spec_start() as int)
    &&& !first.covers(second.spec_start() + second.spec_size() - 1)
    &&& !second.covers(first.spec_start() as int)
    &&& !second.covers(first.spec_start() + first.spec_size() - 1)
}

/// In a kernel binary whose sections are well formed and laid out in order (stack guard page,
/// stack, code, data), the pages of code, data and stack are pairwise disjoint.
pub proof fn lemma_kernel_sections_disjoint(
    layout: KernelBinaryLayout,
    rx: PageSliceDescriptor<Virtual>,
    rw: PageSliceDescriptor<Virtual>,
    stack: PageSliceDescriptor<Virtual>,
)
    requires
        layout.wf(),
        layout.ordered(),
        section_pages(rx, layout.virt_rx_start, layout.rx_size),
        section_pages(rw, layout.virt_rw_start, layout.rw_size),
        section_pages(stack, layout.virt_boot_core_stack_start, layout.boot_core_stack_size),
    ensures
        slices_disjoint(rx, rw),
        slices_disjoint(rx, stack),
        slices_disjoint(rw, stack),
{
    lemma_section_pages_disjoint(rx, layout.virt_rx_start, layout.rx_size, rw, layout.virt_rw_start,
        layout.rw_size);
    lemma_section_pages_disjoint(stack, layout.virt_boot_core_stack_start,
        layout.boot_core_stack_size, rx, layout.virt_rx_start, layout.rx_size);
    lemma_section_pages_disjoint(stack, layout.virt_boot_core_stack_start,
        layout.boot_core_stack_size, rw, layout.virt_rw_start, layout.rw_size);
}

/// Every mapping of the kernel binary is an identity mapping of its own section: its physical
/// pages start where its virtual pages start and are as many; the code and read-only data are
/// mapped read-only and executable, the data and the stack read-write and not executable, all as
/// cacheable memory.
pub proof fn lemma_binary_mappings_identity(layout: KernelBinaryLayout, i: int, m: KernelMapping)
    requires
        mapped_sections_ok(layout),
        0 <= i < 3,
        binary_mapping(layout, i, m),
    ensures
        m.phys_pages.spec_start() == m.virt_pages.spec_start(),
        m.phys_pages.spec_num_pages() == m.virt_pages.spec_num_pages(),
        i == 0 ==> m.virt_pages.spec_start() == layout.virt_rx_start && m.virt_pages.spec_size()
            == layout.rx_size,
        i == 1 ==> m.virt_pages.spec_start() == layout.virt_rw_start && m.virt_pages.spec_size()
            == layout.rw_size,
        i == 2 ==> m.virt_pages.spec_start() == layout.virt_boot_core_stack_start
            && m.virt_pages.spec_size() == layout.boot_core_stack_size,
        m.attributes.mem_attributes == MemAttributes::CacheableDRAM,
        i == 0 ==> m.attributes.acc_perms == AccessPermissions::ReadOnly
            && !m.attributes.execute_never,
        i != 0 ==> m.attributes.acc_perms == AccessPermissions::ReadWrite
            && m.attributes.execute_never,
{
}

} // verus!
