//! Stage 1 translation table descriptors with a 4 KiB granule, and the identity-mapped tables
//! for the first 1 GiB of address space: 2 MiB blocks, except for the first 2 MiB, which are
//! mapped with 4 KiB pages.

use vstd::prelude::*;
use crate::kernel_mem_range::{
    AccessPermissions, AttributeFields, Descriptor, MemAttributes, get_virt_addr_properties,
    kernel_virtual_layout_spec, layout_wf, lemma_kernel_layout_is_identity, virt_addr_properties,
};

verus! {

/// The `width` bits of `v` starting at bit `offset`.
pub open spec fn field(v: u64, offset: u64, width: u64) -> u64 {
    (v >> offset) & (((1u64 << width) - 1) as u64)
}

/// Index of device memory in the memory attribute indirection register.
pub const MAIR_DEVICE: u64 = 0;

/// Index of normal cacheable memory in the memory attribute indirection register.
pub const MAIR_NORMAL: u64 = 1;

/// Index of normal non-cacheable memory in the memory attribute indirection register.
pub const MAIR_NORMAL_NON_CACHEABLE: u64 = 2;

/// Shareability field value: inner shareable for normal memory, outer shareable for devices.
pub open spec fn sh_bits(a: AttributeFields) -> u64 {
    match a.mem_attributes {
        MemAttributes::Device => 0b10,
        _ => 0b11,
    }
}

/// Attribute index field value: the entry of the memory attribute indirection register.
pub open spec fn attr_index_bits(a: AttributeFields) -> u64 {
    match a.mem_attributes {
        MemAttributes::CacheableDRAM => MAIR_NORMAL,
        MemAttributes::NonCacheableDRAM => MAIR_NORMAL_NON_CACHEABLE,
        MemAttributes::Device => MAIR_DEVICE,
    }
}

/// Access permission field value: read-only or read-write at EL1.
pub open spec fn ap_bits(a: AttributeFields) -> u64 {
    match a.acc_perms {
        AccessPermissions::ReadOnly => 0b10,
        AccessPermissions::ReadWrite => 0b00,
    }
}

/// Privileged execute-never bit.
pub open spec fn pxn_bit(a: AttributeFields) -> u64 {
    if a.execute_never {
        1
    } else {
        0
    }
}

/// The bits of a descriptor that hold memory attributes.
pub const ATTRIBUTE_BITS: u64 = 0x0020_0000_0000_03DC;

/// `v` holds the attribute fields of `a`: shareability in bits [9:8], the attribute index in
/// bits [4:2], access permissions in bits [7:6] and privileged execute-never in bit 53.
pub open spec fn holds_attributes(v: u64, a: AttributeFields) -> bool {
    &&& field(v, 8, 2) == sh_bits(a)
    &&& field(v, 2, 3) == attr_index_bits(a)
    &&& field(v, 6, 2) == ap_bits(a)
    &&& field(v, 53, 1) == pxn_bit(a)
}

/// A function that maps the generic memory range attributes to HW-specific attributes of the
/// MMU.
pub fn into_mmu_attributes(attribute_fields: AttributeFields) -> (r: u64)
    ensures
        holds_attributes(r, attribute_fields),
        r & !ATTRIBUTE_BITS == 0,
{
    let sh: u64 = match attribute_fields.mem_attributes {
        MemAttributes::Device => 0b10,
        _ => 0b11,
    };
    let index: u64 = match attribute_fields.mem_attributes {
        MemAttributes::CacheableDRAM => MAIR_NORMAL,
        MemAttributes::NonCacheableDRAM => MAIR_NORMAL_NON_CACHEABLE,
        MemAttributes::Device => MAIR_DEVICE,
    };
    let ap: u64 = match attribute_fields.acc_perms {
        AccessPermissions::ReadOnly => 0b10,
        AccessPermissions::ReadWrite => 0b00,
    };
    let pxn: u64 = if attribute_fields.execute_never { 1 } else { 0 };
    let desc = (sh << 8u64) | (index << 2u64) | (ap << 6u64) | (pxn << 53u64);
    proof {
        assert(sh <= 3 && index <= 7 && ap <= 3 && pxn <= 1 ==> {
            let d = (sh << 8u64) | (index << 2u64) | (ap << 6u64) | (pxn << 53u64);
            &&& field(d, 8, 2) == sh
            &&& field(d, 2, 3) == index
            &&& field(d, 6, 2) == ap
            &&& field(d, 53, 1) == pxn
            &&& d & !0x0020_0000_0000_03DCu64 == 0
        }) by (bit_vector);
    }
    desc
}

/// The attribute bits encode the attributes as the architecture fixes them: access permissions
/// (bits 7:6) 0b10, read-only at EL1, exactly for read-only memory and 0b00, read-write at EL1,
/// exactly for read-write memory; privileged execute-never (bit 53) set exactly for memory that
/// must not be executed; attribute index 0 (device) with outer shareability for device memory,
/// index 1 (normal) and index 2 (normal non-cacheable) with inner shareability for DRAM.
pub proof fn lemma_attribute_bits_encoding(v: u64, a: AttributeFields)
    requires
        holds_attributes(v, a),
    ensures
        field(v, 6, 2) == 0b10 <==> a.acc_perms == AccessPermissions::ReadOnly,
        field(v, 6, 2) == 0b00 <==> a.acc_perms == AccessPermissions::ReadWrite,
        field(v, 53, 1) == 1 <==> a.execute_never,
        field(v, 2, 3) == 0 && field(v, 8, 2) == 0b10 <==> a.mem_attributes == MemAttributes::Device,
        field(v, 2, 3) == 1 && field(v, 8, 2) == 0b11 <==> a.mem_attributes
            == MemAttributes::CacheableDRAM,
        field(v, 2, 3) == 2 && field(v, 8, 2) == 0b11 <==> a.mem_attributes
            == MemAttributes::NonCacheableDRAM,
{
}

/// The bits of a table descriptor that are in use.
pub const TABLE_BITS: u64 = 0x0000_FFFF_FFFF_F003;

/// The bits of a level 2 block descriptor that are in use.
pub const BLOCK_BITS: u64 = 0x0020_FFFF_FFE0_07DD;

/// The bits of a page descriptor that are in use.
pub const PAGE_BITS: u64 = 0x0020_FFFF_FFFF_F7DF;

/// `v` is a valid table descriptor pointing to the table at `addr`.
pub open spec fn is_table_descriptor(v: u64, addr: u64) -> bool {
    &&& field(v, 0, 1) == 1
    &&& field(v, 1, 1) == 1
    &&& field(v, 12, 36) == field(addr, 12, 36)
    &&& v & !TABLE_BITS == 0
}

/// `v` is a valid, accessed 2 MiB block descriptor for output address `addr` with attributes `a`.
pub open spec fn is_block_descriptor(v: u64, addr: u64, a: AttributeFields) -> bool {
    &&& field(v, 0, 1) == 1
    &&& field(v, 1, 1) == 0
    &&& field(v, 10, 1) == 1
    &&& holds_attributes(v, a)
    &&& field(v, 21, 27) == field(addr, 21, 27)
    &&& v & !BLOCK_BITS == 0
}

/// `v` is a valid, accessed 4 KiB page descriptor for output address `addr` with attributes `a`.
pub open spec fn is_page_descriptor(v: u64, addr: u64, a: AttributeFields) -> bool {
    &&& field(v, 0, 1) == 1
    &&& field(v, 1, 1) == 1
    &&& field(v, 10, 1) == 1
    &&& holds_attributes(v, a)
    &&& field(v, 12, 36) == field(addr, 12, 36)
    &&& v & !PAGE_BITS == 0
}

/// Message of the error that a table address is not 4 KiB aligned.
pub open spec fn table_misaligned_message() -> Seq<char> {
    "TableDescriptor: Address is not 4 KiB aligned."@
}

/// Message of the error that a block address is not 2 MiB aligned.
pub open spec fn block_misaligned_message() -> Seq<char> {
    "BlockDescriptor: Address is not 2 MiB aligned."@
}

/// Message of the error that a page address is not 4 KiB aligned.
pub open spec fn page_misaligned_message() -> Seq<char> {
    "PageDescriptor: Address is not 4 KiB aligned."@
}

/// A descriptor pointing to the next page table.
pub struct TableDescriptor(u64);

impl TableDescriptor {
    /// The raw descriptor.
    pub closed spec fn spec_value(self) -> u64 {
        self.0
    }

    /// A descriptor for the table at `next_lvl_table_addr`, which must be 4 KiB aligned.
    pub fn new(next_lvl_table_addr: usize) -> (r: Result<TableDescriptor, &'static str>)
        ensures
            next_lvl_table_addr % 4096 == 0 <==> r is Ok,
            r matches Ok(d) ==> is_table_descriptor(d.spec_value(), next_lvl_table_addr as u64),
            r matches Err(e) ==> e@ == table_misaligned_message(),
    {
        if next_lvl_table_addr % 4096 != 0 {
            return Err("TableDescriptor: Address is not 4 KiB aligned.");
        }
        let shifted = (next_lvl_table_addr >> 12usize) as u64;
        let v: u64 = 1 | (1u64 << 1u64) | ((shifted & 0xF_FFFF_FFFF) << 12u64);
        proof {
            let a = next_lvl_table_addr as u64;
            assert(next_lvl_table_addr >> 12usize == (a >> 12u64) as usize) by (bit_vector)
                requires
                    a == next_lvl_table_addr as u64,
            ;
            assert(shifted == a >> 12u64 ==> is_table_descriptor(
                1 | (1u64 << 1u64) | ((shifted & 0xF_FFFF_FFFF) << 12u64),
                a,
            )) by (bit_vector);
        }
        Ok(TableDescriptor(v))
    }

    /// The raw descriptor.
    pub fn value(&self) -> (r: u64)
        ensures
            r == self.spec_value(),
    {
        self.0
    }
}

/// A level 2 block descriptor with 2 MiB aperture. The output points to physical memory.
pub struct Lvl2BlockDescriptor(u64);

impl Lvl2BlockDescriptor {
    /// The raw descriptor.
    pub closed spec fn spec_value(self) -> u64 {
        self.0
    }

    /// A block descriptor for the 2 MiB aligned `output_addr` with the given attributes.
    pub fn new(output_addr: usize, attribute_fields: AttributeFields) -> (r: Result<
        Lvl2BlockDescriptor,
        &'static str,
    >)
        ensures
            output_addr % 0x20_0000 == 0 <==> r is Ok,
            r matches Ok(d) ==> is_block_descriptor(
                d.spec_value(),
                output_addr as u64,
                attribute_fields,
            ),
            r matches Err(e) ==> e@ == block_misaligned_message(),
    {
        if output_addr % 0x20_0000 != 0 {
            return Err("BlockDescriptor: Address is not 2 MiB aligned.");
        }
        let shifted = (output_addr >> 21usize) as u64;
        let attrs = into_mmu_attributes(attribute_fields);
        let v: u64 = 1 | (1u64 << 10u64) | attrs | ((shifted & 0x7FF_FFFF) << 21u64);
        proof {
            let a = output_addr as u64;
            assert(output_addr >> 21usize == (a >> 21u64) as usize) by (bit_vector)
                requires
                    a == output_addr as u64,
            ;
            let (sh, index, ap, pxn) = (
                sh_bits(attribute_fields),
                attr_index_bits(attribute_fields),
                ap_bits(attribute_fields),
                pxn_bit(attribute_fields),
            );
            assert(shifted == a >> 21u64 && field(attrs, 8, 2) == sh && field(attrs, 2, 3) == index
                && field(attrs, 6, 2) == ap && field(attrs, 53, 1) == pxn && attrs
                & !0x0020_0000_0000_03DCu64 == 0 ==> {
                let d = 1 | (1u64 << 10u64) | attrs | ((shifted & 0x7FF_FFFF) << 21u64);
                &&& field(d, 0, 1) == 1
                &&& field(d, 1, 1) == 0
                &&& field(d, 10, 1) == 1
                &&& field(d, 8, 2) == sh
                &&& field(d, 2, 3) == index
                &&& field(d, 6, 2) == ap
                &&& field(d, 53, 1) == pxn
                &&& field(d, 21, 27) == field(a, 21, 27)
                &&& d & !0x0020_FFFF_FFE0_07DDu64 == 0
            }) by (bit_vector);
        }
        Ok(Lvl2BlockDescriptor(v))
    }

    /// The raw descriptor.
    pub fn value(&self) -> (r: u64)
        ensures
            r == self.spec_value(),
    {
        self.0
    }
}

/// A page descriptor with 4 KiB aperture. The output points to physical memory.
pub struct PageDescriptor(u64);

impl PageDescriptor {
    /// The raw descriptor.
    pub closed spec fn spec_value(self) -> u64 {
        self.0
    }

    /// A page descriptor for the 4 KiB aligned `output_addr` with the given attributes.
    pub fn new(output_addr: usize, attribute_fields: AttributeFields) -> (r: Result<
        PageDescriptor,
        &'static str,
    >)
        ensures
            output_addr % 4096 == 0 <==> r is Ok,
            r matches Ok(d) ==> is_page_descriptor(
                d.spec_value(),
                output_addr as u64,
                attribute_fields,
            ),
            r matches Err(e) ==> e@ == page_misaligned_message(),
    {
        if output_addr % 4096 != 0 {
            return Err("PageDescriptor: Address is not 4 KiB aligned.");
        }
        let shifted = (output_addr >> 12usize) as u64;
        let attrs = into_mmu_attributes(attribute_fields);
        let v: u64 = 1 | (1u64 << 10u64) | attrs | (1u64 << 1u64) | ((shifted & 0xF_FFFF_FFFF)
            << 12u64);
        proof {
            let a = output_addr as u64;
            assert(output_addr >> 12usize == (a >> 12u64) as usize) by (bit_vector)
                requires
                    a == output_addr as u64,
            ;
            let (sh, index, ap, pxn) = (
                sh_bits(attribute_fields),
                attr_index_bits(attribute_fields),
                ap_bits(attribute_fields),
                pxn_bit(attribute_fields),
            );
            assert(shifted == a >> 12u64 && field(attrs, 8, 2) == sh && field(attrs, 2, 3) == index
                && field(attrs, 6, 2) == ap && field(attrs, 53, 1) == pxn && attrs
                & !0x0020_0000_0000_03DCu64 == 0 ==> {
                let d = 1 | (1u64 << 10u64) | attrs | (1u64 << 1u64) | ((shifted & 0xF_FFFF_FFFF)
                    << 12u64);
                &&& field(d, 0, 1) == 1
                &&& field(d, 1, 1) == 1
                &&& field(d, 10, 1) == 1
                &&& field(d, 8, 2) == sh
                &&& field(d, 2, 3) == index
                &&& field(d, 6, 2) == ap
                &&& field(d, 53, 1) == pxn
                &&& field(d, 12, 36) == field(a, 12, 36)
                &&& d & !0x0020_FFFF_FFFF_F7DFu64 == 0
            }) by (bit_vector);
        }
        Ok(PageDescriptor(v))
    }

    /// The raw descriptor.
    pub fn value(&self) -> (r: u64)
        ensures
            r == self.spec_value(),
    {
        self.0
    }
}

/// The attributes that the attribute fields of a descriptor hold, if they hold a valid set.
pub open spec fn decode_attributes(v: u64) -> Option<AttributeFields> {
    let mem = if field(v, 8, 2) == 0b11 && field(v, 2, 3) == MAIR_NORMAL {
        Some(MemAttributes::CacheableDRAM)
    } else if field(v, 8, 2) == 0b11 && field(v, 2, 3) == MAIR_NORMAL_NON_CACHEABLE {
        Some(MemAttributes::NonCacheableDRAM)
    } else if field(v, 8, 2) == 0b10 && field(v, 2, 3) == MAIR_DEVICE {
        Some(MemAttributes::Device)
    } else {
        None
    };
    let acc = if field(v, 6, 2) == 0b10 {
        Some(AccessPermissions::ReadOnly)
    } else if field(v, 6, 2) == 0 {
        Some(AccessPermissions::ReadWrite)
    } else {
        None
    };
    match (mem, acc) {
        (Some(m), Some(p)) => Some(
            AttributeFields { mem_attributes: m, acc_perms: p, execute_never: field(v, 53, 1) == 1 },
        ),
        _ => None,
    }
}

/// The output address of a page or table descriptor.
pub open spec fn page_output_addr(v: u64) -> u64 {
    field(v, 12, 36) << 12u64
}

/// The output address of a level 2 block descriptor.
pub open spec fn block_output_addr(v: u64) -> u64 {
    field(v, 21, 27) << 21u64
}

/// Attribute fields written into a descriptor read back as the same attributes.
pub proof fn lemma_attributes_round_trip(v: u64, a: AttributeFields)
    requires
        holds_attributes(v, a),
    ensures
        decode_attributes(v) == Some(a),
{
}

/// A page descriptor for a 4 KiB aligned address below 2^48 gives back that address and its
/// attributes.
pub proof fn lemma_page_descriptor_round_trip(v: u64, addr: u64, a: AttributeFields)
    requires
        is_page_descriptor(v, addr, a),
        addr % 4096 == 0,
        addr < 0x1_0000_0000_0000,
    ensures
        page_output_addr(v) == addr,
        decode_attributes(v) == Some(a),
{
    assert(addr % 4096 == 0 && addr < 0x1_0000_0000_0000 && field(v, 12, 36) == field(addr, 12, 36)
        ==> field(v, 12, 36) << 12u64 == addr) by (bit_vector);
}

/// A table descriptor for a 4 KiB aligned address below 2^48 gives back that address.
pub proof fn lemma_table_descriptor_round_trip(v: u64, addr: u64)
    requires
        is_table_descriptor(v, addr),
        addr % 4096 == 0,
        addr < 0x1_0000_0000_0000,
    ensures
        page_output_addr(v) == addr,
{
    assert(addr % 4096 == 0 && addr < 0x1_0000_0000_0000 && field(v, 12, 36) == field(addr, 12, 36)
        ==> field(v, 12, 36) << 12u64 == addr) by (bit_vector);
}

/// A block descriptor for a 2 MiB aligned address below 2^48 gives back that address and its
/// attributes.
pub proof fn lemma_block_descriptor_round_trip(v: u64, addr: u64, a: AttributeFields)
    requires
        is_block_descriptor(v, addr, a),
        addr % 0x20_0000 == 0,
        addr < 0x1_0000_0000_0000,
    ensures
        block_output_addr(v) == addr,
        decode_attributes(v) == Some(a),
{
    assert(addr % 0x20_0000 == 0 && addr < 0x1_0000_0000_0000 && field(v, 21, 27) == field(
        addr,
        21,
        27,
    ) ==> field(v, 21, 27) << 21u64 == addr) by (bit_vector);
}

/// Number of entries of a 4 KiB translation table.
pub const NUM_ENTRIES_4KIB: usize = 512;

/// What mapping the virtual address `virt_addr` with a descriptor of `aperture` bytes comes to:
/// the output address and attributes, or the message of the error that stops it.
pub open spec fn entry_outcome(layout: Seq<Descriptor>, virt_addr: int, aperture: int) -> Result<
    (u64, AttributeFields),
    Seq<char>,
> {
    match virt_addr_properties(layout, virt_addr) {
        Err(_) => Err(crate::kernel_mem_range::out_of_range_message()),
        Ok((out, a)) => if out % aperture == 0 {
            Ok((out as u64, a))
        } else if aperture == 0x20_0000 {
            Err(block_misaligned_message())
        } else {
            Err(page_misaligned_message())
        },
    }
}

/// The outcome of the level 2 block entry `i`, for the 2 MiB block at `i * 2 MiB`.
pub open spec fn block_outcome(layout: Seq<Descriptor>, i: int) -> Result<
    (u64, AttributeFields),
    Seq<char>,
> {
    entry_outcome(layout, i * 0x20_0000, 0x20_0000)
}

/// The outcome of the level 3 page entry `i`, for the 4 KiB page at `i * 4 KiB`.
pub open spec fn page_outcome(layout: Seq<Descriptor>, i: int) -> Result<
    (u64, AttributeFields),
    Seq<char>,
> {
    entry_outcome(layout, i * 4096, 4096)
}

/// The level 2 block entries `1..hi` all have a mapping.
pub open spec fn blocks_ok(layout: Seq<Descriptor>, hi: int) -> bool {
    forall|j: int| 1 <= j < hi ==> #[trigger] block_outcome(layout, j) is Ok
}

/// The level 3 page entries `0..hi` all have a mapping.
pub open spec fn pages_ok(layout: Seq<Descriptor>, hi: int) -> bool {
    forall|j: int| 0 <= j < hi ==> #[trigger] page_outcome(layout, j) is Ok
}

/// Block entry `i` is the first one that cannot be built.
pub open spec fn first_failing_block(layout: Seq<Descriptor>, i: int) -> bool {
    &&& 1 <= i < NUM_ENTRIES_4KIB
    &&& block_outcome(layout, i) is Err
    &&& blocks_ok(layout, i)
}

/// Page entry `i` is the first one that cannot be built.
pub open spec fn first_failing_page(layout: Seq<Descriptor>, i: int) -> bool {
    &&& 0 <= i < NUM_ENTRIES_4KIB
    &&& page_outcome(layout, i) is Err
    &&& pages_ok(layout, i)
}

/// The translation tables: the first level 2 entry points to the level 3 table at
/// `lvl3_table_addr`, the other level 2 entries are 2 MiB blocks, and the level 3 entries are
/// 4 KiB pages, each mapped as the layout says.
pub open spec fn tables_hold(
    layout: Seq<Descriptor>,
    lvl3_table_addr: usize,
    lvl2: Seq<u64>,
    lvl3: Seq<u64>,
) -> bool {
    &&& lvl2.len() == NUM_ENTRIES_4KIB
    &&& lvl3.len() == NUM_ENTRIES_4KIB
    &&& is_table_descriptor(lvl2[0], lvl3_table_addr as u64)
    &&& forall|i: int|
        1 <= i < NUM_ENTRIES_4KIB ==> is_block_descriptor(
            #[trigger] lvl2[i],
            block_outcome(layout, i)->Ok_0.0,
            block_outcome(layout, i)->Ok_0.1,
        )
    &&& forall|i: int|
        0 <= i < NUM_ENTRIES_4KIB ==> is_page_descriptor(
            #[trigger] lvl3[i],
            page_outcome(layout, i)->Ok_0.0,
            page_outcome(layout, i)->Ok_0.1,
        )
}

/// Compute identity-style page tables for the first 1 GiB of address space. The first 2 MiB
/// are mapped with 4 KiB pages through the level 3 table at `lvl3_table_addr`, the rest with
/// 2 MiB blocks. Returns the level 2 and level 3 tables, or the error of the first entry that
/// cannot be built.
pub fn populate_tables(layout: &Vec<Descriptor>, lvl3_table_addr: usize) -> (r: Result<
    (Vec<u64>, Vec<u64>),
    &'static str,
>)
    requires
        layout_wf(layout@),
    ensures
        r is Ok <==> lvl3_table_addr % 4096 == 0 && blocks_ok(layout@, NUM_ENTRIES_4KIB as int)
            && pages_ok(layout@, NUM_ENTRIES_4KIB as int),
        r matches Ok((lvl2, lvl3)) ==> tables_hold(layout@, lvl3_table_addr, lvl2@, lvl3@),
        r matches Err(e) ==> {
            ||| lvl3_table_addr % 4096 != 0 && e@ == table_misaligned_message()
            ||| lvl3_table_addr % 4096 == 0 && exists|i: int|
                #[trigger] first_failing_block(layout@, i) && e@ == block_outcome(layout@, i)->Err_0
            ||| lvl3_table_addr % 4096 == 0 && blocks_ok(layout@, NUM_ENTRIES_4KIB as int)
                && exists|i: int|
                #[trigger] first_failing_page(layout@, i) && e@ == page_outcome(layout@, i)->Err_0
        },
{
    let table = match TableDescriptor::new(lvl3_table_addr) {
        Err(s) => return Err(s),
        Ok(d) => d,
    };
    let mut lvl2: Vec<u64> = Vec::new();
    lvl2.push(table.value());

    let mut i: usize = 1;
    while i < NUM_ENTRIES_4KIB
        invariant
            1 <= i <= NUM_ENTRIES_4KIB,
            layout_wf(layout@),
            lvl3_table_addr % 4096 == 0,
            lvl2.len() == i,
            is_table_descriptor(lvl2[0], lvl3_table_addr as u64),
            blocks_ok(layout@, i as int),
            forall|j: int|
                1 <= j < i ==> is_block_descriptor(
                    #[trigger] lvl2[j],
                    block_outcome(layout@, j)->Ok_0.0,
                    block_outcome(layout@, j)->Ok_0.1,
                ),
        decreases NUM_ENTRIES_4KIB - i,
    {
        let virt_addr = i << 21usize;
        assert(i < 512 ==> i << 21usize == i * 0x20_0000) by (bit_vector);
        let (output_addr, attribute_fields) = match get_virt_addr_properties(layout, virt_addr) {
            Err(s) => {
                assert(first_failing_block(layout@, i as int));
                assert(s@ == block_outcome(layout@, i as int)->Err_0);
                return Err(s);
            },
            Ok((a, b)) => (a, b),
        };
        let block_desc = match Lvl2BlockDescriptor::new(output_addr, attribute_fields) {
            Err(s) => {
                assert(first_failing_block(layout@, i as int));
                assert(s@ == block_outcome(layout@, i as int)->Err_0);
                return Err(s);
            },
            Ok(desc) => desc,
        };
        lvl2.push(block_desc.value());
        i = i + 1;
    }

    let mut lvl3: Vec<u64> = Vec::new();
    let mut k: usize = 0;
    while k < NUM_ENTRIES_4KIB
        invariant
            0 <= k <= NUM_ENTRIES_4KIB,
            layout_wf(layout@),
            lvl3_table_addr % 4096 == 0,
            lvl2.len() == NUM_ENTRIES_4KIB,
            is_table_descriptor(lvl2[0], lvl3_table_addr as u64),
            blocks_ok(layout@, NUM_ENTRIES_4KIB as int),
            forall|j: int|
                1 <= j < NUM_ENTRIES_4KIB ==> is_block_descriptor(
                    #[trigger] lvl2[j],
                    block_outcome(layout@, j)->Ok_0.0,
                    block_outcome(layout@, j)->Ok_0.1,
                ),
            lvl3.len() == k,
            pages_ok(layout@, k as int),
            forall|j: int|
                0 <= j < k ==> is_page_descriptor(
                    #[trigger] lvl3[j],
                    page_outcome(layout@, j)->Ok_0.0,
                    page_outcome(layout@, j)->Ok_0.1,
                ),
        decreases NUM_ENTRIES_4KIB - k,
    {
        let virt_addr = k << 12usize;
        assert(k < 512 ==> k << 12usize == k * 4096) by (bit_vector);
        let (output_addr, attribute_fields) = match get_virt_addr_properties(layout, virt_addr) {
            Err(s) => {
                assert(first_failing_page(layout@, k as int));
                assert(s@ == page_outcome(layout@, k as int)->Err_0);
                return Err(s);
            },
            Ok((a, b)) => (a, b),
        };
        let page_desc = match PageDescriptor::new(output_addr, attribute_fields) {
            Err(s) => {
                assert(first_failing_page(layout@, k as int));
                assert(s@ == page_outcome(layout@, k as int)->Err_0);
                return Err(s);
            },
            Ok(desc) => desc,
        };
        lvl3.push(page_desc.value());
        k = k + 1;
    }

    Ok((lvl2, lvl3))
}

/// Under the kernel's virtual memory layout every table entry can be built, and every block and
/// page maps its virtual addresses to the same physical addresses: tables built from it never
/// fail for a 4 KiB aligned level 3 table.
pub proof fn lemma_kernel_layout_tables_identity(ro_start: usize, ro_end: usize, bss_end: usize)
    requires
        ro_end >= 1,
        bss_end >= 1,
    ensures
        ({
            let layout = kernel_virtual_layout_spec(ro_start, ro_end, bss_end);
            &&& blocks_ok(layout, NUM_ENTRIES_4KIB as int)
            &&& pages_ok(layout, NUM_ENTRIES_4KIB as int)
            &&& forall|i: int|
                1 <= i < NUM_ENTRIES_4KIB ==> #[trigger] block_outcome(layout, i)->Ok_0.0 == i
                    * 0x20_0000
            &&& forall|i: int|
                0 <= i < NUM_ENTRIES_4KIB ==> #[trigger] page_outcome(layout, i)->Ok_0.0 == i
                    * 4096
        }),
{
    let layout = kernel_virtual_layout_spec(ro_start, ro_end, bss_end);
    assert forall|i: int| 1 <= i < NUM_ENTRIES_4KIB implies #[trigger] block_outcome(layout, i) is Ok
        && block_outcome(layout, i)->Ok_0.0 == i * 0x20_0000 by {
        lemma_kernel_layout_is_identity(ro_start, ro_end, bss_end, i * 0x20_0000);
        assert((i * 0x20_0000) % 0x20_0000 == 0);
    }
    assert forall|i: int| 0 <= i < NUM_ENTRIES_4KIB implies #[trigger] page_outcome(layout, i) is Ok
        && page_outcome(layout, i)->Ok_0.0 == i * 4096 by {
        lemma_kernel_layout_is_identity(ro_start, ro_end, bss_end, i * 4096);
        assert((i * 4096) % 4096 == 0);
    }
}

} // verus!
