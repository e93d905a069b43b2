use rpi_kernel::bsp::{
    board_name, boot_core_stack_end, kernel_binary_mappings, kernel_map_binary, phys_addr_space_end_page, MapStep,
    phys_boot_core_stack_page_desc, phys_rw_page_desc, phys_rx_page_desc, qemu_bring_up_console,
    size_to_num_pages, virt_boot_core_stack_guard_page_desc, virt_boot_core_stack_page_desc,
    virt_rw_page_desc, virt_rx_page_desc, Board, KernelBinaryLayout,
};
use rpi_kernel::kernel_mem_range::{
    get_virt_addr_properties, kernel_virtual_layout, AccessPermissions, AttributeFields,
    Descriptor, MemAttributes, Translation,
};
use rpi_kernel::mmu_types;

fn layout() -> KernelBinaryLayout {
    KernelBinaryLayout {
        virt_boot_core_stack_guard_page_start: 0x0,
        boot_core_stack_guard_page_size: 0x1_0000,
        virt_boot_core_stack_start: 0x1_0000,
        boot_core_stack_size: 0x7_0000,
        virt_rx_start: 0x8_0000,
        rx_size: 0x2_0000,
        virt_rw_start: 0xA_0000,
        rw_size: 0x1_0000,
        phys_addr_space_end: 0xFFFF_FFFF,
    }
}

#[test]
fn board_names() {
    assert_eq!(board_name(Board::RaspberryPi3), "Raspberry Pi 3");
    assert_eq!(board_name(Board::RaspberryPi4), "Raspberry Pi 4");
    assert_eq!(boot_core_stack_end(), 0x8_0000);
    qemu_bring_up_console();
}

#[test]
fn sections_in_pages() {
    assert_eq!(size_to_num_pages(0x3_0000), 3);
    assert_eq!(size_to_num_pages(0x1_0000), 1);

    let l = layout();
    let rx = virt_rx_page_desc(&l);
    assert_eq!(rx.start_addr().into_usize(), 0x8_0000);
    assert_eq!(rx.num_pages(), 2);
    let rw = virt_rw_page_desc(&l);
    assert_eq!(rw.start_addr().into_usize(), 0xA_0000);
    assert_eq!(rw.num_pages(), 1);
    let stack = virt_boot_core_stack_page_desc(&l);
    assert_eq!(stack.start_addr().into_usize(), 0x1_0000);
    assert_eq!(stack.num_pages(), 7);
    let guard = virt_boot_core_stack_guard_page_desc(&l);
    assert_eq!(guard.start_addr().into_usize(), 0x0);
    assert_eq!(guard.num_pages(), 1);
    // The guard page and the stack do not overlap.
    assert!(!guard.contains(stack.start_addr()));
    assert!(!stack.contains(guard.end_addr_inclusive()));

    let prx = phys_rx_page_desc(&l);
    assert_eq!(prx.start_addr().into_usize(), 0x8_0000);
    assert_eq!(prx.num_pages(), 2);
    let prw = phys_rw_page_desc(&l);
    assert_eq!(prw.start_addr().into_usize(), 0xA_0000);
    assert_eq!(prw.num_pages(), 1);
    let pstack = phys_boot_core_stack_page_desc(&l);
    assert_eq!(pstack.start_addr().into_usize(), 0x1_0000);
    assert_eq!(pstack.num_pages(), 7);

    assert_eq!(phys_addr_space_end_page(&l).into_usize(), 0xFFFF_0000);
}

#[test]
fn binary_mappings() {
    let maps = kernel_binary_mappings(&layout());
    assert_eq!(maps.len(), 3);
    assert_eq!(maps[0].name, "Kernel code and RO data");
    assert_eq!(maps[0].virt_pages.start_addr().into_usize(), 0x8_0000);
    assert_eq!(maps[0].phys_pages.start_addr().into_usize(), 0x8_0000);
    assert_eq!(maps[0].phys_pages.num_pages(), 2);
    assert!(
        maps[0].attributes
            == mmu_types::AttributeFields {
                mem_attributes: mmu_types::MemAttributes::CacheableDRAM,
                acc_perms: mmu_types::AccessPermissions::ReadOnly,
                execute_never: false,
            }
    );
    assert_eq!(maps[1].name, "Kernel data and bss");
    assert_eq!(maps[1].virt_pages.start_addr().into_usize(), 0xA_0000);
    assert!(
        maps[1].attributes
            == mmu_types::AttributeFields {
                mem_attributes: mmu_types::MemAttributes::CacheableDRAM,
                acc_perms: mmu_types::AccessPermissions::ReadWrite,
                execute_never: true,
            }
    );
    assert_eq!(maps[2].name, "Kernel boot-core stack");
    assert_eq!(maps[2].virt_pages.num_pages(), 7);
    assert!(maps[2].attributes == maps[1].attributes);
}

fn ro_attributes() -> AttributeFields {
    AttributeFields {
        mem_attributes: MemAttributes::CacheableDRAM,
        acc_perms: AccessPermissions::ReadOnly,
        execute_never: false,
    }
}

#[test]
fn kernel_layout_lookup() {
    let l = kernel_virtual_layout(0x8_0000, 0x9_0000, 0xA_0000);
    assert_eq!(l.len(), 4);
    assert_eq!(l[0].name, "Kernel stack");
    assert_eq!(l[1].name, "Kernel code and RO data");
    assert_eq!(l[1].end_inclusive, 0x8_FFFF);
    assert_eq!(l[2].name, "Kernel data and BSS");
    assert_eq!(l[3].name, "Device MMIO");

    let (out, attr) = get_virt_addr_properties(&l, 0x8_1000).unwrap();
    assert_eq!(out, 0x8_1000);
    assert!(attr == ro_attributes());

    let (out, attr) = get_virt_addr_properties(&l, 0x9_0000).unwrap();
    assert_eq!(out, 0x9_0000);
    assert!(attr.acc_perms == AccessPermissions::ReadWrite && attr.execute_never);

    let (out, attr) = get_virt_addr_properties(&l, 0x3F20_0000).unwrap();
    assert_eq!(out, 0x3F20_0000);
    assert!(attr.mem_attributes == MemAttributes::Device);

    // Addresses that no range covers are normal cacheable DRAM.
    let (out, attr) = get_virt_addr_properties(&l, 0x10_0000).unwrap();
    assert_eq!(out, 0x10_0000);
    assert!(attr == AttributeFields::default());

    assert_eq!(get_virt_addr_properties(&l, 0x4000_0000).err(), Some("Address out of range."));
    assert!(get_virt_addr_properties(&l, 0x3FFF_FFFF).is_ok());
}

#[test]
fn offset_translation_and_first_match() {
    let l = vec![
        Descriptor {
            name: "Remapped",
            start: 0x1000,
            end_inclusive: 0x1FFF,
            translation: Translation::Offset(0x5000),
            attribute_fields: ro_attributes(),
        },
        Descriptor {
            name: "Shadowed",
            start: 0x1000,
            end_inclusive: 0x2FFF,
            translation: Translation::Identity,
            attribute_fields: AttributeFields::default(),
        },
    ];
    let (out, attr) = get_virt_addr_properties(&l, 0x1800).unwrap();
    assert_eq!(out, 0x5800);
    assert!(attr == ro_attributes());
    let (out, attr) = get_virt_addr_properties(&l, 0x2800).unwrap();
    assert_eq!(out, 0x2800);
    assert!(attr == AttributeFields::default());
}

#[test]
fn descriptor_listing() {
    let l = kernel_virtual_layout(0x8_0000, 0x9_0000, 0xA_0000);
    assert_eq!(l[0].size_and_unit(), (512, "KiB"));
    assert_eq!(l[3].size_and_unit(), (16, "MiB"));
    assert_eq!(l[0].attribute_names(), ("C", "RW", "PXN"));
    assert_eq!(l[1].attribute_names(), ("C", "RO", "PX"));
    assert_eq!(l[3].attribute_names(), ("Dev", "RW", "PXN"));
    assert_eq!(
        l[0].to_display_string(),
        "      0x00000000 - 0x0007FFFF | 512 KiB | C   RW PXN | Kernel stack"
    );
    assert_eq!(
        l[3].to_display_string(),
        "      0x3F000000 - 0x3FFFFFFF |  16 MiB | Dev RW PXN | Device MMIO"
    );
    let tiny = Descriptor {
        name: "Tiny",
        start: 0x10,
        end_inclusive: 0x1F,
        translation: Translation::Identity,
        attribute_fields: AttributeFields {
            mem_attributes: MemAttributes::NonCacheableDRAM,
            acc_perms: AccessPermissions::ReadOnly,
            execute_never: false,
        },
    };
    assert_eq!(tiny.size_and_unit(), (16, "Byte"));
    assert_eq!(
        tiny.to_display_string(),
        "      0x00000010 - 0x0000001F |  16 Byte | NC  RO PX  | Tiny"
    );
}

/// Drive the mapping of the binary with the given outcomes: the names of the mappings made and the
/// result.
fn drive(outcomes: &[Result<(), &'static str>]) -> (Vec<&'static str>, Result<(), &'static str>) {
    let mut made = Vec::new();
    let mut last = Ok(());
    loop {
        match kernel_map_binary(&layout(), made.len(), last) {
            MapStep::MakeMapping(m) => {
                last = outcomes[made.len()];
                made.push(m.name);
            }
            MapStep::Finished(result) => return (made, result),
        }
    }
}

#[test]
fn mapping_the_binary_stops_at_the_first_error() {
    let (made, result) = drive(&[Ok(()), Ok(()), Ok(())]);
    assert_eq!(result, Ok(()));
    assert_eq!(made, vec!["Kernel code and RO data", "Kernel data and bss", "Kernel boot-core stack"]);

    let (made, result) = drive(&[Ok(()), Err("no room"), Ok(())]);
    assert_eq!(result, Err("no room"));
    assert_eq!(made, vec!["Kernel code and RO data", "Kernel data and bss"]);

    let (made, result) = drive(&[Err("first"), Err("second"), Ok(())]);
    assert_eq!(result, Err("first"));
    assert_eq!(made, vec!["Kernel code and RO data"]);

    let first = match kernel_map_binary(&layout(), 0, Ok(())) {
        MapStep::MakeMapping(m) => m,
        MapStep::Finished(_) => panic!("nothing mapped"),
    };
    assert_eq!(first.virt_pages.start_addr().into_usize(), 0x8_0000);
    assert!(matches!(kernel_map_binary(&layout(), 3, Ok(())), MapStep::Finished(Ok(()))));
    assert!(matches!(kernel_map_binary(&layout(), 1, Err("x")), MapStep::Finished(Err("x"))));
}

#[test]
fn dma_memory_listing() {
    let lines = rpi_kernel::dma_memory::print_layout(0x8_0000, 0x9_0000, 0xA_0000);
    assert_eq!(
        lines,
        vec![
            "[i] Memory layout:".to_string(),
            "      0x00000000 - 0x0007FFFF |  512 KiB | Kernel stack".to_string(),
            "      0x00080000 - 0x0008FFFF |   64 KiB | Kernel code and RO data".to_string(),
            "      0x00090000 - 0x0009FFFF |   64 KiB | Kernel data and BSS".to_string(),
            "      0x00200000 - 0x005FFFFF |    4 MiB | DMA heap pool".to_string(),
            "      0x3F000000 - 0x3FFFFFFF |   16 MiB | Device MMIO".to_string(),
        ]
    );
}

#[test]
fn listing_text_matches_std_formatting() {
    let cases: [(usize, usize, &'static str); 4] = [
        (0x0, 0x3FF, "Small"),
        (0x1000, 0x1FFF, "Page"),
        (0x1234_5678, 0x1234_5678 + 0x1F_FFFF, "Two MiB"),
        (0xABCD_0000, 0xABCD_0000 + 0x3_FFFF_FFFF, "Large"),
    ];
    for (start, end, name) in cases {
        let d = Descriptor {
            name,
            start,
            end_inclusive: end,
            translation: Translation::Identity,
            attribute_fields: ro_attributes(),
        };
        let (size, unit) = d.size_and_unit();
        let (attr, acc, xn) = d.attribute_names();
        assert_eq!(
            d.to_display_string(),
            format!(
                "      {:#010X} - {:#010X} | {: >3} {} | {: <3} {} {: <3} | {}",
                start, end, size, unit, attr, acc, xn, name
            )
        );
    }
    let lines = rpi_kernel::dma_memory::print_layout(0x1_0000, 0x1234_5000, 0x5_0000_0000);
    assert_eq!(
        lines[2],
        format!(
            "      {:#010X} - {:#010X} | {: >4} KiB | Kernel code and RO data",
            0x1_0000u64,
            0x1234_4FFFu64,
            (0x1234_4FFFu64 - 0x1_0000 + 1) >> 10
        )
    );
    assert_eq!(
        lines[3],
        format!(
            "      {:#010X} - {:#010X} | {: >4} KiB | Kernel data and BSS",
            0x1234_5000u64,
            0x4_FFFF_FFFFu64,
            (0x4_FFFF_FFFFu64 - 0x1234_5000 + 1) >> 10
        )
    );
}
