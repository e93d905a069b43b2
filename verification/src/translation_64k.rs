//! Stage 1 translation table descriptors with a 64 KiB granule: table descriptors pointing to
//! level 3 tables, and page descriptors covering 64 KiB each.

use vstd::prelude::*;
use crate::mmu_types::{AccessPermissions, AttributeFields, MemAttributes};
use crate::translation_4k::{field, MAIR_DEVICE, MAIR_NORMAL};

verus! {

/// Shareability field value: inner shareable for normal memory, outer shareable for devices.
pub open spec fn sh_bits(a: AttributeFields) -> u64 {
    match a.mem_attributes {
        MemAttributes::CacheableDRAM => 0b11,
        MemAttributes::Device => 0b10,
    }
}

/// Attribute index field value: the entry of the memory attribute indirection register.
pub open spec fn attr_index_bits(a: AttributeFields) -> u64 {
    match a.mem_attributes {
        MemAttributes::CacheableDRAM => MAIR_NORMAL,
        MemAttributes::Device => MAIR_DEVICE,
    }
}

/// Access permission field value: read-only or read-write at EL1.
pub open spec fn ap_bits(a: AttributeFields) -> u64 {
    match a.acc_perms {
        AccessPermissions::ReadOnly => 0b10,
        AccessPermissions::ReadWrite => 0b00,
    }
}

/// Privileged execute-never bit.
pub open spec fn pxn_bit(a: AttributeFields) -> u64 {
    if a.execute_never {
        1
    } else {
        0
    }
}

/// `v` holds the attribute fields of `a`: shareability in bits [9:8], the attribute index in
/// bits [4:2], access permissions in bits [7:6] and privileged execute-never in bit 53.
pub open spec fn holds_attributes(v: u64, a: AttributeFields) -> bool {
    &&& field(v, 8, 2) == sh_bits(a)
    &&& field(v, 2, 3) == attr_index_bits(a)
    &&& field(v, 6, 2) == ap_bits(a)
    &&& field(v, 53, 1) == pxn_bit(a)
}

/// Convert the kernel's generic memory range attributes to HW-specific attributes of the MMU.
pub fn attribute_bits(attribute_fields: AttributeFields) -> (r: u64)
    ensures
        holds_attributes(r, attribute_fields),
        r & !0x0020_0000_0000_03DCu64 == 0,
{
    let (sh, index): (u64, u64) = match attribute_fields.mem_attributes {
        MemAttributes::CacheableDRAM => (0b11, MAIR_NORMAL),
        MemAttributes::Device => (0b10, MAIR_DEVICE),
    };
    let ap: u64 = match attribute_fields.acc_perms {
        AccessPermissions::ReadOnly => 0b10,
        AccessPermissions::ReadWrite => 0b00,
    };
    let pxn: u64 = if attribute_fields.execute_never { 1 } else { 0 };
    proof {
        assert(sh <= 3 && index <= 7 && ap <= 3 && pxn <= 1 ==> {
            let d = (sh << 8u64) | (index << 2u64) | (ap << 6u64) | (pxn << 53u64);
            &&& field(d, 8, 2) == sh
            &&& field(d, 2, 3) == index
            &&& field(d, 6, 2) == ap
            &&& field(d, 53, 1) == pxn
            &&& d & !0x0020_0000_0000_03DCu64 == 0
        }) by (bit_vector);
    }
    (sh << 8u64) | (index << 2u64) | (ap << 6u64) | (pxn << 53u64)
}

/// The attribute bits encode the attributes as the architecture fixes them: access permissions
/// (bits 7:6) 0b10, read-only at EL1, exactly for read-only memory and 0b00, read-write at EL1,
/// exactly for read-write memory; privileged execute-never (bit 53) set exactly for memory that
/// must not be executed; attribute index 0 (device) with outer shareability (0b10) for device
/// memory, and attribute index 1 (normal) with inner shareability (0b11) for cacheable DRAM.
pub proof fn lemma_attribute_bits_encoding(v: u64, a: AttributeFields)
    requires
        holds_attributes(v, a),
    ensures
        field(v, 6, 2) == 0b10 <==> a.acc_perms == AccessPermissions::ReadOnly,
        field(v, 6, 2) == 0b00 <==> a.acc_perms == AccessPermissions::ReadWrite,
        field(v, 53, 1) == 1 <==> a.execute_never,
        field(v, 2, 3) == 0 && field(v, 8, 2) == 0b10 <==> a.mem_attributes == MemAttributes::Device,
        field(v, 2, 3) == 1 && field(v, 8, 2) == 0b11 <==> a.mem_attributes
            == MemAttributes::CacheableDRAM,
{
}

/// `v` is a valid table descriptor whose next-level table address field holds bits [47:16] of
/// `addr`.
pub open spec fn is_table_descriptor(v: u64, addr: u64) -> bool {
    &&& field(v, 0, 1) == 1
    &&& field(v, 1, 1) == 1
    &&& field(v, 16, 32) == field(addr, 16, 32)
    &&& v & !0x0000_FFFF_FFFF_0003u64 == 0
}

/// `v` is a valid, accessed page descriptor whose output address field holds bits [47:16] of
/// `addr`, with attributes `a`.
pub open spec fn is_page_descriptor(v: u64, addr: u64, a: AttributeFields) -> bool {
    &&& field(v, 0, 1) == 1
    &&& field(v, 1, 1) == 1
    &&& field(v, 10, 1) == 1
    &&& holds_attributes(v, a)
    &&& field(v, 16, 32) == field(addr, 16, 32)
    &&& v & !0x0020_FFFF_FFFF_07DFu64 == 0
}

/// A table descriptor for 64 KiB aperture. The output points to the next table.
pub struct TableDescriptor(u64);

impl TableDescriptor {
    /// The raw descriptor.
    pub closed spec fn spec_value(self) -> u64 {
        self.0
    }

    /// A descriptor for the table at `next_lvl_table_addr`.
    pub fn from_table_addr(next_lvl_table_addr: usize) -> (r: TableDescriptor)
        ensures
            is_table_descriptor(r.spec_value(), next_lvl_table_addr as u64),
    {
        let a = next_lvl_table_addr as u64;
        let shifted = a >> 16u64;
        proof {
            assert(shifted == a >> 16u64 ==> is_table_descriptor(
                1 | (1u64 << 1u64) | ((shifted & 0xFFFF_FFFF) << 16u64),
                a,
            )) by (bit_vector);
        }
        TableDescriptor(1 | (1u64 << 1u64) | ((shifted & 0xFFFF_FFFF) << 16u64))
    }

    /// The raw descriptor.
    pub fn value(&self) -> (r: u64)
        ensures
            r == self.spec_value(),
    {
        self.0
    }
}

/// A page descriptor with 64 KiB aperture. The output points to physical memory.
pub struct PageDescriptor(u64);

impl PageDescriptor {
    /// The raw descriptor.
    pub closed spec fn spec_value(self) -> u64 {
        self.0
    }

    /// A page descriptor for `output_addr` with the given attributes.
    pub fn new(output_addr: usize, attribute_fields: AttributeFields) -> (r: PageDescriptor)
        ensures
            is_page_descriptor(r.spec_value(), output_addr as u64, attribute_fields),
    {
        let a = output_addr as u64;
        let shifted = a >> 16u64;
        let attrs = attribute_bits(attribute_fields);
        let v: u64 = 1 | (1u64 << 10u64) | attrs | (1u64 << 1u64) | ((shifted & 0xFFFF_FFFF)
            << 16u64);
        proof {
            let (sh, index, ap, pxn) = (
                sh_bits(attribute_fields),
                attr_index_bits(attribute_fields),
                ap_bits(attribute_fields),
                pxn_bit(attribute_fields),
            );
            assert(shifted == a >> 16u64 && field(attrs, 8, 2) == sh && field(attrs, 2, 3) == index
                && field(attrs, 6, 2) == ap && field(attrs, 53, 1) == pxn && attrs
                & !0x0020_0000_0000_03DCu64 == 0 ==> {
                let d = 1 | (1u64 << 10u64) | attrs | (1u64 << 1u64) | ((shifted & 0xFFFF_FFFF)
                    << 16u64);
                &&& field(d, 0, 1) == 1
                &&& field(d, 1, 1) == 1
                &&& field(d, 10, 1) == 1
                &&& field(d, 8, 2) == sh
                &&& field(d, 2, 3) == index
                &&& field(d, 6, 2) == ap
                &&& field(d, 53, 1) == pxn
                &&& field(d, 16, 32) == field(a, 16, 32)
                &&& d & !0x0020_FFFF_FFFF_07DFu64 == 0
            }) by (bit_vector);
        }
        PageDescriptor(v)
    }

    /// The raw descriptor.
    pub fn value(&self) -> (r: u64)
        ensures
            r == self.spec_value(),
    {
        self.0
    }
}

/// The output address that a 64 KiB page or table descriptor points to.
pub open spec fn output_addr(v: u64) -> u64 {
    field(v, 16, 32) << 16u64
}

/// A page descriptor for a 64 KiB aligned address below 2^48 gives back that address.
pub proof fn lemma_page_descriptor_round_trip(v: u64, addr: u64, a: AttributeFields)
    requires
        is_page_descriptor(v, addr, a),
        addr % 0x1_0000 == 0,
        addr < 0x1_0000_0000_0000,
    ensures
        output_addr(v) == addr,
        holds_attributes(v, a),
{
    assert(addr % 0x1_0000 == 0 && addr < 0x1_0000_0000_0000 && field(v, 16, 32) == field(
        addr,
        16,
        32,
    ) ==> field(v, 16, 32) << 16u64 == addr) by (bit_vector);
}

/// Number of entries of a level 3 table with 64 KiB granule.
pub const LVL3_ENTRIES: usize = 8192;

/// The virtual address of page `l3` of level 2 entry `l2`: `l2` windows of 512 MiB plus `l3`
/// pages of 64 KiB.
pub open spec fn page_virt_addr(l2: int, l3: int) -> int {
    l2 * 0x2000_0000 + l3 * 0x1_0000
}

/// Entry `l3` of the level 3 table of window `l2` maps its page as the lookup said.
pub open spec fn page_entry_ok<F: Fn(usize) -> Result<(usize, AttributeFields), &'static str>>(
    lookup: F,
    l2: int,
    l3: int,
    entry: u64,
) -> bool {
    exists|out: usize, a: AttributeFields|
        #[trigger] lookup.ensures(
            (page_virt_addr(l2, l3) as usize,),
            Ok::<(usize, AttributeFields), &'static str>((out, a)),
        ) && is_page_descriptor(entry, out as u64, a)
}

/// The lookup of page `l3` of window `l2` can give an output address and attributes.
pub open spec fn lookup_ok<F: Fn(usize) -> Result<(usize, AttributeFields), &'static str>>(
    lookup: F,
    l2: int,
    l3: int,
) -> bool {
    exists|o: (usize, AttributeFields)|
        #[trigger] lookup.ensures(
            (page_virt_addr(l2, l3) as usize,),
            Ok::<(usize, AttributeFields), &'static str>(o),
        )
}

/// Page `(i2, j2)` comes before page `(i, j)` in the order in which the tables are filled:
/// window by window, page by page.
pub open spec fn walks_before(i2: int, j2: int, i: int, j: int) -> bool {
    i2 < i || (i2 == i && j2 < j)
}

/// Fill translation tables with 64 KiB pages for `lvl3_table_addrs.len()` windows of 512 MiB:
/// level 2 entry `i` points to the level 3 table at `lvl3_table_addrs[i]`, and level 3 entry `j`
/// of it maps the page at `i * 512 MiB + j * 64 KiB` as `lookup` gives its output address and
/// attributes. An error of the lookup stops the filling and is returned.
pub fn populate_pt_entries<F: Fn(usize) -> Result<(usize, AttributeFields), &'static str>>(
    lvl3_table_addrs: &Vec<usize>,
    lookup: F,
) -> (r: Result<(Vec<u64>, Vec<Vec<u64>>), &'static str>)
    requires
        lvl3_table_addrs.len() <= 8,
        forall|v: usize| #[trigger] lookup.requires((v,)),
    ensures
        r matches Ok((lvl2, lvl3)) ==> {
            &&& lvl2@.len() == lvl3_table_addrs.len()
            &&& lvl3@.len() == lvl3_table_addrs.len()
            &&& forall|i: int|
                0 <= i < lvl2@.len() ==> is_table_descriptor(
                    #[trigger] lvl2@[i],
                    lvl3_table_addrs@[i] as u64,
                )
            &&& forall|i: int|
                0 <= i < lvl3@.len() ==> (#[trigger] lvl3@[i])@.len() == LVL3_ENTRIES
            &&& forall|i: int, j: int|
                0 <= i < lvl3@.len() && 0 <= j < LVL3_ENTRIES ==> page_entry_ok(
                    lookup,
                    i,
                    j,
                    #[trigger] lvl3@[i]@[j],
                )
        },
        r is Err ==> exists|i: int, j: int|
            0 <= i < lvl3_table_addrs.len() && 0 <= j < LVL3_ENTRIES && #[trigger] lookup.ensures(
                (page_virt_addr(i, j) as usize,),
                Err::<(usize, AttributeFields), &'static str>(r->Err_0),
            ) && forall|i2: int, j2: int|
                0 <= i2 && 0 <= j2 < LVL3_ENTRIES && walks_before(i2, j2, i, j) ==> #[trigger]
                    lookup_ok(lookup, i2, j2),
{
    let mut lvl2: Vec<u64> = Vec::new();
    let mut lvl3: Vec<Vec<u64>> = Vec::new();
    let mut l2_nr: usize = 0;
    while l2_nr < lvl3_table_addrs.len()
        invariant
            0 <= l2_nr <= lvl3_table_addrs.len() <= 8,
            forall|v: usize| #[trigger] lookup.requires((v,)),
            lvl2@.len() == l2_nr,
            lvl3@.len() == l2_nr,
            forall|i: int|
                0 <= i < l2_nr ==> is_table_descriptor(
                    #[trigger] lvl2@[i],
                    lvl3_table_addrs@[i] as u64,
                ),
            forall|i: int| 0 <= i < l2_nr ==> (#[trigger] lvl3@[i])@.len() == LVL3_ENTRIES,
            forall|i: int, j: int|
                0 <= i < l2_nr && 0 <= j < LVL3_ENTRIES ==> page_entry_ok(
                    lookup,
                    i,
                    j,
                    #[trigger] lvl3@[i]@[j],
                ),
            forall|i: int, j: int|
                0 <= i < l2_nr && 0 <= j < LVL3_ENTRIES ==> #[trigger] lookup_ok(lookup, i, j),
        decreases lvl3_table_addrs.len() - l2_nr,
    {
        lvl2.push(TableDescriptor::from_table_addr(lvl3_table_addrs[l2_nr]).value());
        let mut table: Vec<u64> = Vec::new();
        let mut l3_nr: usize = 0;
        while l3_nr < LVL3_ENTRIES
            invariant
                0 <= l2_nr < lvl3_table_addrs.len() <= 8,
                0 <= l3_nr <= LVL3_ENTRIES,
                forall|v: usize| #[trigger] lookup.requires((v,)),
                table@.len() == l3_nr,
                forall|j: int|
                    0 <= j < l3_nr ==> page_entry_ok(lookup, l2_nr as int, j, #[trigger] table@[j]),
                forall|i: int, j: int|
                    0 <= i < l2_nr && 0 <= j < LVL3_ENTRIES ==> #[trigger] lookup_ok(lookup, i, j),
                forall|j: int| 0 <= j < l3_nr ==> #[trigger] lookup_ok(lookup, l2_nr as int, j),
            decreases LVL3_ENTRIES - l3_nr,
        {
            assert(l2_nr < 8 && l3_nr < 8192 ==> (l2_nr << 29usize) == l2_nr * 0x2000_0000 && (
            l3_nr << 16usize) == l3_nr * 0x1_0000) by (bit_vector);
            assert(l2_nr * 0x2000_0000 + l3_nr * 0x1_0000 <= 0xFFFF_0000);
            let virt_addr = (l2_nr << 29usize) + (l3_nr << 16usize);
            assert(virt_addr == page_virt_addr(l2_nr as int, l3_nr as int) as usize);
            let res = lookup(virt_addr);
            let (output_addr, attribute_fields) = match res {
                Err(e) => {
                    assert(lookup.ensures(
                        (page_virt_addr(l2_nr as int, l3_nr as int) as usize,),
                        Err::<(usize, AttributeFields), &'static str>(e),
                    ));
                    let r: Result<(Vec<u64>, Vec<Vec<u64>>), &'static str> = Err(e);
                    assert(r->Err_0 == e);
                    assert(0 <= l2_nr < lvl3_table_addrs.len());
                    assert(l3_nr < LVL3_ENTRIES);
                    assert forall|i2: int, j2: int|
                        0 <= i2 && 0 <= j2 < LVL3_ENTRIES && walks_before(
                            i2,
                            j2,
                            l2_nr as int,
                            l3_nr as int,
                        ) implies #[trigger] lookup_ok(lookup, i2, j2) by {
                        if i2 == l2_nr {
                            assert(lookup_ok(lookup, l2_nr as int, j2));
                        }
                    }
                    return r;
                },
                Ok(x) => x,
            };
            let desc = PageDescriptor::new(output_addr, attribute_fields);
            table.push(desc.value());
            proof {
                assert(lookup.ensures(
                    (page_virt_addr(l2_nr as int, l3_nr as int) as usize,),
                    Ok::<(usize, AttributeFields), &'static str>((output_addr, attribute_fields)),
                ));
                assert(is_page_descriptor(table@[l3_nr as int], output_addr as u64, attribute_fields));
                assert(page_entry_ok(lookup, l2_nr as int, l3_nr as int, table@[l3_nr as int]));
                assert(lookup_ok(lookup, l2_nr as int, l3_nr as int));
            }
            l3_nr = l3_nr + 1;
        }
        lvl3.push(table);
        l2_nr = l2_nr + 1;
    }
    Ok((lvl2, lvl3))
}

} // verus!
