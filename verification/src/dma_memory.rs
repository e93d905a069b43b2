//! The physical memory map of the kernel with a DMA heap, and its listing.

use vstd::prelude::*;
use crate::common::region_size_shifted;
use crate::text::{dec_digits, hex_field, pad_left, push_dec_right_aligned, push_hex_field};
use vstd::string::StringExecFns;

verus! {

/// Bottom of the kernel stack.
pub const KERN_STACK_BOT: u64 = 0x0000_0000;

/// Top of the kernel stack (inclusive).
pub const KERN_STACK_TOP: u64 = 0x0007_FFFF;

/// Start of the DMA heap: the second 2 MiB block.
pub const DMA_HEAP_START: u64 = 0x0020_0000;

/// End of the DMA heap (inclusive).
pub const DMA_HEAP_END: u64 = 0x005F_FFFF;

/// Start of the MMIO area.
pub const MMIO_BASE: u64 = 0x3F00_0000;

/// The VideoCore mailbox.
pub const VIDEOCORE_MBOX_BASE: u64 = MMIO_BASE + 0x0000_B880;

/// The GPIO block.
pub const GPIO_BASE: u64 = MMIO_BASE + 0x0020_0000;

/// The PL011 UART.
pub const PL011_UART_BASE: u64 = MMIO_BASE + 0x0020_1000;

/// The mini UART.
pub const MINI_UART_BASE: u64 = MMIO_BASE + 0x0021_5000;

/// The last physical address.
pub const PHYS_ADDR_MAX: u64 = 0x3FFF_FFFF;

/// The text of a line of the memory layout listing: start and end as `0x` and at least eight
/// upper-case hexadecimal digits, the size right-aligned in four places, the unit and the name.
pub open spec fn map_line(start: u64, end: u64, size: u64, unit: Seq<char>, name: Seq<char>) -> Seq<
    char,
> {
    "      "@ + hex_field(start as nat) + " - "@ + hex_field(end as nat) + " | "@ + pad_left(
        dec_digits(size as nat),
        4,
    ) + " "@ + unit + " | "@ + name
}

/// One line of the memory layout listing.
fn map_line_string(start: u64, end: u64, size: u64, unit: &str, name: &str) -> (r: String)
    ensures
        r@ == map_line(start, end, size, unit@, name@),
{
    proof {
        reveal_strlit("      ");
        reveal_strlit(" - ");
        reveal_strlit(" | ");
        reveal_strlit(" ");
    }
    let mut s = String::from_str("      ");
    push_hex_field(&mut s, start);
    s.append(" - ");
    push_hex_field(&mut s, end);
    s.append(" | ");
    push_dec_right_aligned(&mut s, size, 4);
    s.append(" ");
    s.append(unit);
    s.append(" | ");
    s.append(name);
    proof {
        assert(s@ =~= map_line(start, end, size, unit@, name@));
    }
    s
}

/// The listing line of the range `[start, end]`, in units of `2^shift` bytes.
pub open spec fn range_line(start: u64, end: u64, unit_bytes: int, unit: Seq<char>, name: Seq<char>) -> Seq<
    char,
> {
    map_line(start, end, ((end - start + 1) / unit_bytes) as u64, unit, name)
}

/// The lines of the memory layout listing, for code and read-only data in
/// `[ro_start, ro_end)` and data and bss in `[ro_end, bss_end)`: a heading, then the kernel
/// stack, code and read-only data, data and bss in KiB, the DMA heap and the device MMIO area
/// in MiB.
pub open spec fn layout_listing(ro_start: u64, ro_end: u64, bss_end: u64) -> Seq<Seq<char>> {
    seq![
        "[i] Memory layout:"@,
        range_line(KERN_STACK_BOT, KERN_STACK_TOP, 0x400, "KiB"@, "Kernel stack"@),
        range_line(ro_start, (ro_end - 1) as u64, 0x400, "KiB"@, "Kernel code and RO data"@),
        range_line(ro_end, (bss_end - 1) as u64, 0x400, "KiB"@, "Kernel data and BSS"@),
        range_line(DMA_HEAP_START, DMA_HEAP_END, 0x10_0000, "MiB"@, "DMA heap pool"@),
        range_line(MMIO_BASE, PHYS_ADDR_MAX, 0x10_0000, "MiB"@, "Device MMIO"@),
    ]
}

/// The lines that the memory layout listing prints, for code and read-only data in
/// `[ro_start, ro_end)` and data and bss in `[ro_end, bss_end)`.
pub fn print_layout(ro_start: u64, ro_end: u64, bss_end: u64) -> (r: Vec<String>)
    requires
        ro_start < ro_end < bss_end,
    ensures
        r@.len() == 6,
        forall|i: int| 0 <= i < 6 ==> (#[trigger] r@[i])@ == layout_listing(ro_start, ro_end, bss_end)[i],
{
    proof {
        vstd::arithmetic::power2::lemma2_to64();
    }
    let ro_last = ro_end - 1;
    let data_last = bss_end - 1;
    let mut r: Vec<String> = Vec::new();
    r.push(String::from_str("[i] Memory layout:"));
    r.push(map_line_string(KERN_STACK_BOT, KERN_STACK_TOP, region_size_shifted(KERN_STACK_BOT,
        KERN_STACK_TOP, 10), "KiB", "Kernel stack"));
    r.push(map_line_string(ro_start, ro_last, region_size_shifted(ro_start, ro_last, 10), "KiB",
        "Kernel code and RO data"));
    r.push(map_line_string(ro_end, data_last, region_size_shifted(ro_end, data_last, 10), "KiB",
        "Kernel data and BSS"));
    r.push(map_line_string(DMA_HEAP_START, DMA_HEAP_END, region_size_shifted(DMA_HEAP_START,
        DMA_HEAP_END, 20), "MiB", "DMA heap pool"));
    r.push(map_line_string(MMIO_BASE, PHYS_ADDR_MAX, region_size_shifted(MMIO_BASE,
        PHYS_ADDR_MAX, 20), "MiB", "Device MMIO"));
    proof {
        reveal_strlit("[i] Memory layout:");
        reveal_strlit("KiB");
        reveal_strlit("MiB");
        reveal_strlit("Kernel stack");
        reveal_strlit("Kernel code and RO data");
        reveal_strlit("Kernel data and BSS");
        reveal_strlit("DMA heap pool");
        reveal_strlit("Device MMIO");
    }
    r
}

} // verus!
