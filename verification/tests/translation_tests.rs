use rpi_kernel::cache_demo::demo_tables;
use rpi_kernel::kernel_mem_range::{
    kernel_virtual_layout, AccessPermissions, AttributeFields, Descriptor, MemAttributes,
    Translation,
};
use rpi_kernel::mmu_types;
use rpi_kernel::translation_4k::{
    into_mmu_attributes, populate_tables, Lvl2BlockDescriptor, PageDescriptor, TableDescriptor,
};
use rpi_kernel::translation_64k;

fn rw_cacheable() -> AttributeFields {
    AttributeFields {
        mem_attributes: MemAttributes::CacheableDRAM,
        acc_perms: AccessPermissions::ReadWrite,
        execute_never: true,
    }
}

fn ro_cacheable() -> AttributeFields {
    AttributeFields {
        mem_attributes: MemAttributes::CacheableDRAM,
        acc_perms: AccessPermissions::ReadOnly,
        execute_never: false,
    }
}

#[test]
fn attribute_encoding() {
    assert_eq!(into_mmu_attributes(rw_cacheable()), 0x0020_0000_0000_0304);
    assert_eq!(into_mmu_attributes(ro_cacheable()), 0x0000_0000_0000_0384);
    let device = AttributeFields {
        mem_attributes: MemAttributes::Device,
        acc_perms: AccessPermissions::ReadWrite,
        execute_never: true,
    };
    assert_eq!(into_mmu_attributes(device), 0x0020_0000_0000_0200);
    let non_cacheable = AttributeFields {
        mem_attributes: MemAttributes::NonCacheableDRAM,
        acc_perms: AccessPermissions::ReadWrite,
        execute_never: false,
    };
    assert_eq!(into_mmu_attributes(non_cacheable), 0x0000_0000_0000_0308);
}

#[test]
fn table_descriptor_encoding() {
    assert_eq!(TableDescriptor::new(0x1000).unwrap().value(), 0x1003);
    assert_eq!(TableDescriptor::new(0x9_0000).unwrap().value(), 0x9_0003);
    assert_eq!(
        TableDescriptor::new(0x1001).err(),
        Some("TableDescriptor: Address is not 4 KiB aligned.")
    );
}

#[test]
fn block_descriptor_encoding() {
    assert_eq!(
        Lvl2BlockDescriptor::new(0x20_0000, rw_cacheable()).unwrap().value(),
        0x0020_0000_0020_0705
    );
    assert_eq!(
        Lvl2BlockDescriptor::new(0x1000, rw_cacheable()).err(),
        Some("BlockDescriptor: Address is not 2 MiB aligned.")
    );
}

#[test]
fn page_descriptor_encoding() {
    assert_eq!(PageDescriptor::new(0x3000, ro_cacheable()).unwrap().value(), 0x3787);
    assert_eq!(
        PageDescriptor::new(0x3001, ro_cacheable()).err(),
        Some("PageDescriptor: Address is not 4 KiB aligned.")
    );
}

#[test]
fn kernel_tables_are_identity_mapped() {
    let layout = kernel_virtual_layout(0x8_0000, 0xA_0000, 0xB_0000);
    let (lvl2, lvl3) = populate_tables(&layout, 0x10_0000).unwrap();
    assert_eq!(lvl2.len(), 512);
    assert_eq!(lvl3.len(), 512);
    assert_eq!(lvl2[0], 0x10_0003);
    assert_eq!(lvl2[1], 0x0020_0000_0020_0705);
    assert_eq!(lvl2[504], 0x0020_0000_3F00_0601);
    assert_eq!(lvl2[511], 0x0020_0000_3FE0_0601);
    assert_eq!(lvl3[0], 0x0020_0000_0000_0707);
    assert_eq!(lvl3[0x80], 0x0008_0787);
    assert_eq!(lvl3[0x9F], 0x0009_F787);
    assert_eq!(lvl3[0xA0], 0x0020_0000_000A_0707);
    for (i, entry) in lvl3.iter().enumerate() {
        assert_eq!((entry >> 12) & 0xF_FFFF_FFFF, i as u64);
    }
    for (i, entry) in lvl2.iter().enumerate().skip(1) {
        assert_eq!((entry >> 21) & 0x7FF_FFFF, i as u64);
    }
}

#[test]
fn table_errors() {
    let layout = kernel_virtual_layout(0x8_0000, 0xA_0000, 0xB_0000);
    assert_eq!(
        populate_tables(&layout, 0x10_0800).err(),
        Some("TableDescriptor: Address is not 4 KiB aligned.")
    );

    let misaligned_block = vec![Descriptor {
        name: "Shifted block",
        start: 0x20_0000,
        end_inclusive: 0x3F_FFFF,
        translation: Translation::Offset(0x1000),
        attribute_fields: rw_cacheable(),
    }];
    assert_eq!(
        populate_tables(&misaligned_block, 0x10_0000).err(),
        Some("BlockDescriptor: Address is not 2 MiB aligned.")
    );

    let misaligned_page = vec![Descriptor {
        name: "Shifted page",
        start: 0x0,
        end_inclusive: 0xFFF,
        translation: Translation::Offset(0x800),
        attribute_fields: rw_cacheable(),
    }];
    assert_eq!(
        populate_tables(&misaligned_page, 0x10_0000).err(),
        Some("PageDescriptor: Address is not 4 KiB aligned.")
    );
}

fn device_64k() -> mmu_types::AttributeFields {
    mmu_types::AttributeFields {
        mem_attributes: mmu_types::MemAttributes::Device,
        acc_perms: mmu_types::AccessPermissions::ReadWrite,
        execute_never: true,
    }
}

#[test]
fn descriptors_with_64k_granule() {
    assert_eq!(translation_64k::TableDescriptor::from_table_addr(0x9_0000).value(), 0x9_0003);
    assert_eq!(translation_64k::attribute_bits(device_64k()), 0x0020_0000_0000_0200);
    assert_eq!(
        translation_64k::PageDescriptor::new(0x3F20_0000, device_64k()).value(),
        0x0020_0000_3F20_0603
    );
}

#[test]
fn populate_64k_tables() {
    let addrs = vec![0x10_0000usize, 0x12_0000];
    let (lvl2, lvl3) = translation_64k::populate_pt_entries(&addrs, |v: usize| {
        Ok((v, device_64k()))
    })
    .unwrap();
    assert_eq!(lvl2, vec![0x10_0003, 0x12_0003]);
    assert_eq!(lvl3.len(), 2);
    assert_eq!(lvl3[0].len(), 8192);
    assert_eq!(lvl3[0][1], 0x0020_0000_0001_0603);
    assert_eq!(lvl3[1][0], 0x0020_0000_2000_0603);

    let failing = translation_64k::populate_pt_entries(&addrs, |v: usize| {
        if v < 0x2_0000 {
            Ok((v, device_64k()))
        } else {
            Err("Address out of range.")
        }
    });
    assert_eq!(failing.err(), Some("Address out of range."));
}

#[test]
fn cache_demo_tables() {
    let (lvl2, lvl3) = demo_tables(0x9_0000, 0x8_0000, 0xA_0000);
    assert_eq!(lvl2.len(), 512);
    assert_eq!(lvl3.len(), 512);
    assert_eq!(lvl2[0], 0x9_0003);
    assert_eq!(lvl2[1], 0x0040_0000_0040_0609);
    assert_eq!(lvl2[2], 0x0040_0000_0040_0705);
    assert_eq!(lvl2[503], 0x0040_0000_3EE0_0705);
    assert_eq!(lvl2[504], 0x0040_0000_3F00_0601);
    assert_eq!(lvl3[0], 0x0040_0000_0000_0707);
    assert_eq!(lvl3[0x7F], 0x0040_0000_0007_F707);
    assert_eq!(lvl3[0x80], 0x0008_0787);
    assert_eq!(lvl3[0x9F], 0x0009_F787);
    assert_eq!(lvl3[0xA0], 0x0040_0000_000A_0707);
}
