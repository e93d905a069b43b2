//! The cache performance demonstration: identity-mapped tables for the first 1 GiB in which the
//! second 2 MiB block is remapped to non-cacheable memory, and the arithmetic of the benchmark
//! that compares the two.

use vstd::prelude::*;
use crate::translation_4k::field;

verus! {

/// Start of the device MMIO area.
pub const MMIO_BASE: u64 = 0x3F00_0000;

/// Number of entries of a 4 KiB translation table.
pub const NUM_ENTRIES: usize = 512;

/// The bits of a level 2 block descriptor in use here (execute-never is bit 54).
pub const BLOCK_BITS: u64 = 0x0040_FFFF_FFE0_07DD;

/// The bits of a level 3 page descriptor in use here (execute-never is bit 54).
pub const PAGE_BITS: u64 = 0x0040_FFFF_FFFF_F7DF;

/// `v` is a valid, accessed, read-write, execute-never level 2 block descriptor for the 2 MiB
/// block number `block`, with shareability `sh` and attribute index `index`.
pub open spec fn is_rw_block(v: u64, block: u64, sh: u64, index: u64) -> bool {
    &&& field(v, 0, 1) == 1
    &&& field(v, 1, 1) == 0
    &&& field(v, 2, 3) == index
    &&& field(v, 6, 2) == 0
    &&& field(v, 8, 2) == sh
    &&& field(v, 10, 1) == 1
    &&& field(v, 21, 27) == block
    &&& field(v, 54, 1) == 1
    &&& v & !BLOCK_BITS == 0
}

/// `v` is a valid, accessed, inner shareable, normal cacheable level 3 page descriptor for the
/// 4 KiB page number `page`, with access permissions `ap` and execute-never bit `xn`.
pub open spec fn is_normal_page(v: u64, page: u64, ap: u64, xn: u64) -> bool {
    &&& field(v, 0, 1) == 1
    &&& field(v, 1, 1) == 1
    &&& field(v, 2, 3) == 1
    &&& field(v, 6, 2) == ap
    &&& field(v, 8, 2) == 0b11
    &&& field(v, 10, 1) == 1
    &&& field(v, 12, 36) == page
    &&& field(v, 54, 1) == xn
    &&& v & !PAGE_BITS == 0
}

/// The 4 KiB page `page` holds code or read-only data: it lies in `[ro_start, ro_end)` counted
/// in whole pages.
pub open spec fn is_ro_page(page: int, ro_start: u64, ro_end: u64) -> bool {
    ro_start / 4096 <= page <= ro_end / 4096 - 1
}

/// The level 2 and level 3 tables of the demonstration.
pub open spec fn demo_tables_hold(lvl2: Seq<u64>, lvl3: Seq<u64>, lvl3_table_addr: u64, ro_start: u64, ro_end: u64) -> bool {
    &&& lvl2.len() == NUM_ENTRIES
    &&& lvl3.len() == NUM_ENTRIES
    // The first 2 MiB go through the level 3 table.
    &&& field(lvl2[0], 0, 1) == 1
    &&& field(lvl2[0], 1, 1) == 1
    &&& field(lvl2[0], 12, 36) == field(lvl3_table_addr >> 12u64, 0, 36)
    &&& lvl2[0] & !0x0000_FFFF_FFFF_F003u64 == 0
    // Virtual 2 MiB block 1 is physical block 2, outer shareable and non-cacheable.
    &&& is_rw_block(lvl2[1], 2, 0b10, 2)
    // The other blocks are identity mapped: device memory from the MMIO base on, else cacheable.
    &&& forall|i: int|
        2 <= i < NUM_ENTRIES ==> is_rw_block(
            #[trigger] lvl2[i],
            i as u64,
            if i >= MMIO_BASE / 0x20_0000 { 0b10 } else { 0b11 },
            if i >= MMIO_BASE / 0x20_0000 { 0 } else { 1 },
        )
    // The pages are identity mapped: code and read-only data read-only and executable, the rest
    // read-write and execute-never.
    &&& forall|i: int|
        0 <= i < NUM_ENTRIES ==> is_normal_page(
            #[trigger] lvl3[i],
            i as u64,
            if is_ro_page(i, ro_start, ro_end) { 0b10 } else { 0 },
            if is_ro_page(i, ro_start, ro_end) { 0 } else { 1 },
        )
}

/// The translation tables of the cache performance demonstration, for a level 3 table at
/// `lvl3_table_addr` and code and read-only data in `[ro_start, ro_end)`.
pub fn demo_tables(lvl3_table_addr: u64, ro_start: u64, ro_end: u64) -> (r: (Vec<u64>, Vec<u64>))
    requires
        ro_end >= 4096,
    ensures
        demo_tables_hold(r.0@, r.1@, lvl3_table_addr, ro_start, ro_end),
{
    let mut lvl2: Vec<u64> = Vec::new();
    let lvl3_base: u64 = lvl3_table_addr >> 12u64;
    let first = 1u64 | (1u64 << 1u64) | ((lvl3_base & 0xF_FFFF_FFFF) << 12u64);
    proof {
        assert({
            &&& field(first, 0, 1) == 1
            &&& field(first, 1, 1) == 1
            &&& field(first, 12, 36) == field(lvl3_base, 0, 36)
            &&& first & !0x0000_FFFF_FFFF_F003u64 == 0
        }) by (bit_vector)
            requires
                first == 1u64 | (1u64 << 1u64) | ((lvl3_base & 0xF_FFFF_FFFF) << 12u64),
        ;
    }
    lvl2.push(first);

    let second = 1u64 | (2u64 << 2u64) | (0b10u64 << 8u64) | (1u64 << 10u64) | (2u64 << 21u64) | (
    1u64 << 54u64);
    assert(is_rw_block(
        1u64 | (2u64 << 2u64) | (0b10u64 << 8u64) | (1u64 << 10u64) | (2u64 << 21u64) | (1u64
            << 54u64),
        2,
        0b10,
        2,
    )) by (bit_vector);
    lvl2.push(second);

    let mmio_base: u64 = MMIO_BASE >> 21u64;
    assert(MMIO_BASE >> 21u64 == MMIO_BASE / 0x20_0000) by (bit_vector);
    let mut i: usize = 2;
    while i < NUM_ENTRIES
        invariant
            2 <= i <= NUM_ENTRIES,
            mmio_base == MMIO_BASE / 0x20_0000,
            lvl2.len() == i,
            field(lvl2[0], 0, 1) == 1,
            field(lvl2[0], 1, 1) == 1,
            field(lvl2[0], 12, 36) == field(lvl3_table_addr >> 12u64, 0, 36),
            lvl2[0] & !0x0000_FFFF_FFFF_F003u64 == 0,
            is_rw_block(lvl2[1], 2, 0b10, 2),
            forall|j: int|
                2 <= j < i ==> is_rw_block(
                    #[trigger] lvl2[j],
                    j as u64,
                    if j >= MMIO_BASE / 0x20_0000 { 0b10 } else { 0b11 },
                    if j >= MMIO_BASE / 0x20_0000 { 0 } else { 1 },
                ),
        decreases NUM_ENTRIES - i,
    {
        let j: u64 = i as u64;
        let (sh, index): (u64, u64) = if j >= mmio_base { (0b10, 0) } else { (0b11, 1) };
        let entry = 1u64 | (1u64 << 10u64) | (1u64 << 54u64) | (sh << 8u64) | (index << 2u64) | (
        (j & 0x7FF_FFFF) << 21u64);
        assert(j < 512 && sh <= 3 && index <= 7 ==> is_rw_block(
            1u64 | (1u64 << 10u64) | (1u64 << 54u64) | (sh << 8u64) | (index << 2u64) | ((j
                & 0x7FF_FFFF) << 21u64),
            j,
            sh,
            index,
        )) by (bit_vector);
        lvl2.push(entry);
        i = i + 1;
    }

    let ro_first_page_index: u64 = ro_start / 4096;
    let ro_last_page_index: u64 = (ro_end / 4096) - 1;

    let mut lvl3: Vec<u64> = Vec::new();
    let mut k: usize = 0;
    while k < NUM_ENTRIES
        invariant
            0 <= k <= NUM_ENTRIES,
            ro_first_page_index == ro_start / 4096,
            ro_last_page_index == ro_end / 4096 - 1,
            lvl3.len() == k,
            forall|j: int|
                0 <= j < k ==> is_normal_page(
                    #[trigger] lvl3[j],
                    j as u64,
                    if is_ro_page(j, ro_start, ro_end) { 0b10 } else { 0 },
                    if is_ro_page(j, ro_start, ro_end) { 0 } else { 1 },
                ),
        decreases NUM_ENTRIES - k,
    {
        let j: u64 = k as u64;
        let (ap, xn): (u64, u64) = if j < ro_first_page_index || j > ro_last_page_index {
            (0, 1)
        } else {
            (0b10, 0)
        };
        let entry = 1u64 | (1u64 << 1u64) | (1u64 << 2u64) | (0b11u64 << 8u64) | (1u64 << 10u64)
            | (ap << 6u64) | (xn << 54u64) | ((j & 0xF_FFFF_FFFF) << 12u64);
        assert(j < 512 && ap <= 3 && xn <= 1 ==> is_normal_page(
            1u64 | (1u64 << 1u64) | (1u64 << 2u64) | (0b11u64 << 8u64) | (1u64 << 10u64) | (ap
                << 6u64) | (xn << 54u64) | ((j & 0xF_FFFF_FFFF) << 12u64),
            j,
            ap,
            xn,
        )) by (bit_vector);
        lvl3.push(entry);
        k = k + 1;
    }
    (lvl2, lvl3)
}

} // verus!
