//! The kernel's virtual memory layout, compiled from address ranges that are agnostic of the
//! paging granularity the MMU will use, and the lookup of an address's translation in it.

use vstd::prelude::*;
use vstd::string::StringExecFns;
use crate::text::{
    dec_digits, hex_field, pad_left, pad_right, push_dec_right_aligned, push_hex_field,
    push_str_left_aligned,
};

verus! {

/// The inclusive end of the address space that the layout describes.
pub const END: usize = 0x3FFF_FFFF;

/// Start of the kernel stack.
pub const KERN_STACK_START: usize = 0x0000_0000;

/// Inclusive end of the kernel stack.
pub const KERN_STACK_END: usize = 0x0007_FFFF;

/// Start of the device MMIO area.
pub const MMIO_BASE: usize = 0x3F00_0000;

/// Inclusive end of the device MMIO area.
pub const MMIO_END: usize = END;

/// Memory attributes of a range.
#[derive(Copy, Clone, PartialEq, Eq, Structural)]
pub enum MemAttributes {
    CacheableDRAM,
    NonCacheableDRAM,
    Device,
}

/// Access permissions of a range.
#[derive(Copy, Clone, PartialEq, Eq, Structural)]
pub enum AccessPermissions {
    ReadOnly,
    ReadWrite,
}

/// How the addresses of a range translate to output addresses.
#[derive(Copy, Clone, PartialEq, Eq, Structural)]
pub enum Translation {
    Identity,
    Offset(usize),
}

/// Collection of memory attributes.
#[derive(Copy, Clone, PartialEq, Eq, Structural)]
pub struct AttributeFields {
    pub mem_attributes: MemAttributes,
    pub acc_perms: AccessPermissions,
    pub execute_never: bool,
}

/// The attributes of normal cacheable DRAM: cacheable, read-write, not executable.
pub open spec fn default_attributes() -> AttributeFields {
    AttributeFields {
        mem_attributes: MemAttributes::CacheableDRAM,
        acc_perms: AccessPermissions::ReadWrite,
        execute_never: true,
    }
}

impl Default for AttributeFields {
    fn default() -> (r: AttributeFields)
        ensures
            r == default_attributes(),
    {
        AttributeFields {
            mem_attributes: MemAttributes::CacheableDRAM,
            acc_perms: AccessPermissions::ReadWrite,
            execute_never: true,
        }
    }
}

/// A named range of virtual addresses, `[start, end_inclusive]`, with its translation and
/// attributes.
#[derive(Copy, Clone)]
pub struct Descriptor {
    pub name: &'static str,
    pub start: usize,
    pub end_inclusive: usize,
    pub translation: Translation,
    pub attribute_fields: AttributeFields,
}

impl Descriptor {
    /// `addr` lies in the range.
    pub open spec fn contains(self, addr: int) -> bool {
        self.start <= addr <= self.end_inclusive
    }

    /// An offset translation of the range stays within the address space.
    pub open spec fn wf(self) -> bool {
        match self.translation {
            Translation::Identity => true,
            Translation::Offset(a) => self.start <= self.end_inclusive ==> a + (self.end_inclusive
                - self.start) <= usize::MAX,
        }
    }

    /// The output address of `addr`, which lies in the range.
    pub open spec fn output_addr(self, addr: int) -> int {
        match self.translation {
            Translation::Identity => addr,
            Translation::Offset(a) => a + (addr - self.start),
        }
    }
}

/// Every descriptor of the layout is well formed.
pub open spec fn layout_wf(layout: Seq<Descriptor>) -> bool {
    forall|i: int| 0 <= i < layout.len() ==> #[trigger] layout[i].wf()
}

/// The first descriptor of the layout whose range contains `addr`, if any.
pub open spec fn first_match(layout: Seq<Descriptor>, addr: int) -> Option<Descriptor>
    decreases layout.len(),
{
    if layout.len() == 0 {
        None
    } else if layout[0].contains(addr) {
        Some(layout[0])
    } else {
        first_match(layout.drop_first(), addr)
    }
}

/// The output address and attributes of `virt_addr` under `layout`: an error above `END`; the
/// translation and attributes of the first range that contains it; else the address itself with
/// the attributes of normal cacheable DRAM.
pub open spec fn virt_addr_properties(layout: Seq<Descriptor>, virt_addr: int) -> Result<
    (int, AttributeFields),
    (),
> {
    if virt_addr > END {
        Err(())
    } else {
        match first_match(layout, virt_addr) {
            Some(d) => Ok((d.output_addr(virt_addr), d.attribute_fields)),
            None => Ok((virt_addr, default_attributes())),
        }
    }
}

/// Message of the error that an address lies above the layout's address space.
pub open spec fn out_of_range_message() -> Seq<char> {
    "Address out of range."@
}

/// The first match in a suffix of the layout is found at the first element or further on.
proof fn lemma_first_match_step(layout: Seq<Descriptor>, i: int, addr: int)
    requires
        0 <= i < layout.len(),
    ensures
        first_match(layout.subrange(i, layout.len() as int), addr) == if layout[i].contains(addr) {
            Some(layout[i])
        } else {
            first_match(layout.subrange(i + 1, layout.len() as int), addr)
        },
{
    let suffix = layout.subrange(i, layout.len() as int);
    assert(suffix.drop_first() =~= layout.subrange(i + 1, layout.len() as int));
}

/// A first match is one of the layout's descriptors.
proof fn lemma_first_match_member(layout: Seq<Descriptor>, addr: int)
    ensures
        first_match(layout, addr) is Some ==> layout.contains(first_match(layout, addr)->0)
            && first_match(layout, addr)->0.contains(addr),
    decreases layout.len(),
{
    if layout.len() > 0 && !layout[0].contains(addr) {
        lemma_first_match_member(layout.drop_first(), addr);
        if first_match(layout, addr) is Some {
            let d = first_match(layout, addr)->0;
            let j = choose|j: int| 0 <= j < layout.drop_first().len() && layout.drop_first()[j] == d;
            assert(layout[j + 1] == d);
        }
    } else if layout.len() > 0 {
        assert(layout[0] == first_match(layout, addr)->0);
    }
}

/// For a given virtual address, find and return the output address and according attributes.
///
/// If the address is not covered in the layout, return a default for normal cacheable DRAM.
pub fn get_virt_addr_properties(layout: &Vec<Descriptor>, virt_addr: usize) -> (r: Result<
    (usize, AttributeFields),
    &'static str,
>)
    requires
        layout_wf(layout@),
    ensures
        match r {
            Ok((output_addr, attributes)) => virt_addr_properties(layout@, virt_addr as int)
                == Ok::<(int, AttributeFields), ()>((output_addr as int, attributes)),
            Err(e) => virt_addr_properties(layout@, virt_addr as int) is Err && e@
                == out_of_range_message(),
        },
{
    if virt_addr > END {
        return Err("Address out of range.");
    }
    let mut i: usize = 0;
    proof { assert(layout@.subrange(0, layout@.len() as int) =~= layout@); }
    while i < layout.len()
        invariant
            0 <= i <= layout.len(),
            virt_addr <= END,
            layout_wf(layout@),
            first_match(layout@, virt_addr as int) == first_match(
                layout@.subrange(i as int, layout@.len() as int),
                virt_addr as int,
            ),
        decreases layout.len() - i,
    {
        let d = &layout[i];
        proof { lemma_first_match_step(layout@, i as int, virt_addr as int); }
        if d.start <= virt_addr && virt_addr <= d.end_inclusive {
            proof { assert(layout@[i as int].wf()); }
            let output_addr = match d.translation {
                Translation::Identity => virt_addr,
                Translation::Offset(a) => a + (virt_addr - d.start),
            };
            return Ok((output_addr, d.attribute_fields));
        }
        i = i + 1;
    }
    proof {
        assert(layout@.subrange(i as int, layout@.len() as int).len() == 0);
    }
    Ok((virt_addr, AttributeFields::default()))
}

/// The kernel's virtual memory layout: the kernel stack, the code and read-only data in
/// `[ro_start, ro_end)`, the data and bss in `[ro_end, bss_end)`, and the device MMIO area.
/// Only special ranges are listed, anything that is not normal cacheable DRAM.
pub fn kernel_virtual_layout(ro_start: usize, ro_end: usize, bss_end: usize) -> (r: Vec<
    Descriptor,
>)
    requires
        ro_end >= 1,
        bss_end >= 1,
    ensures
        r@ == kernel_virtual_layout_spec(ro_start, ro_end, bss_end),
        layout_wf(r@),
{
    let mut r: Vec<Descriptor> = Vec::new();
    r.push(
        Descriptor {
            name: "Kernel stack",
            start: KERN_STACK_START,
            end_inclusive: KERN_STACK_END,
            translation: Translation::Identity,
            attribute_fields: AttributeFields {
                mem_attributes: MemAttributes::CacheableDRAM,
                acc_perms: AccessPermissions::ReadWrite,
                execute_never: true,
            },
        },
    );
    r.push(
        Descriptor {
            name: "Kernel code and RO data",
            start: ro_start,
            end_inclusive: ro_end - 1,
            translation: Translation::Identity,
            attribute_fields: AttributeFields {
                mem_attributes: MemAttributes::CacheableDRAM,
                acc_perms: AccessPermissions::ReadOnly,
                execute_never: false,
            },
        },
    );
    r.push(
        Descriptor {
            name: "Kernel data and BSS",
            start: ro_end,
            end_inclusive: bss_end - 1,
            translation: Translation::Identity,
            attribute_fields: AttributeFields {
                mem_attributes: MemAttributes::CacheableDRAM,
                acc_perms: AccessPermissions::ReadWrite,
                execute_never: true,
            },
        },
    );
    r.push(
        Descriptor {
            name: "Device MMIO",
            start: MMIO_BASE,
            end_inclusive: MMIO_END,
            translation: Translation::Identity,
            attribute_fields: AttributeFields {
                mem_attributes: MemAttributes::Device,
                acc_perms: AccessPermissions::ReadWrite,
                execute_never: true,
            },
        },
    );
    proof {
        let s = r@;
        assert forall|i: int| 0 <= i < s.len() implies #[trigger] s[i].wf() by {}
    }
    r
}

/// The kernel's virtual memory layout, as a sequence of descriptors.
pub open spec fn kernel_virtual_layout_spec(ro_start: usize, ro_end: usize, bss_end: usize) -> Seq<
    Descriptor,
> {
    seq![
        Descriptor {
            name: "Kernel stack",
            start: KERN_STACK_START,
            end_inclusive: KERN_STACK_END,
            translation: Translation::Identity,
            attribute_fields: AttributeFields {
                mem_attributes: MemAttributes::CacheableDRAM,
                acc_perms: AccessPermissions::ReadWrite,
                execute_never: true,
            },
        },
        Descriptor {
            name: "Kernel code and RO data",
            start: ro_start,
            end_inclusive: (ro_end - 1) as usize,
            translation: Translation::Identity,
            attribute_fields: AttributeFields {
                mem_attributes: MemAttributes::CacheableDRAM,
                acc_perms: AccessPermissions::ReadOnly,
                execute_never: false,
            },
        },
        Descriptor {
            name: "Kernel data and BSS",
            start: ro_end,
            end_inclusive: (bss_end - 1) as usize,
            translation: Translation::Identity,
            attribute_fields: AttributeFields {
                mem_attributes: MemAttributes::CacheableDRAM,
                acc_perms: AccessPermissions::ReadWrite,
                execute_never: true,
            },
        },
        Descriptor {
            name: "Device MMIO",
            start: MMIO_BASE,
            end_inclusive: MMIO_END,
            translation: Translation::Identity,
            attribute_fields: AttributeFields {
                mem_attributes: MemAttributes::Device,
                acc_perms: AccessPermissions::ReadWrite,
                execute_never: true,
            },
        },
    ]
}

/// The kernel's layout maps every address of its address space to itself.
pub proof fn lemma_kernel_layout_is_identity(ro_start: usize, ro_end: usize, bss_end: usize, addr: int)
    requires
        ro_end >= 1,
        bss_end >= 1,
        0 <= addr <= END,
    ensures
        virt_addr_properties(kernel_virtual_layout_spec(ro_start, ro_end, bss_end), addr) is Ok,
        virt_addr_properties(kernel_virtual_layout_spec(ro_start, ro_end, bss_end), addr)->Ok_0.0
            == addr,
{
    let layout = kernel_virtual_layout_spec(ro_start, ro_end, bss_end);
    lemma_first_match_member(layout, addr);
    if first_match(layout, addr) is Some {
        let d = first_match(layout, addr)->0;
        let j = choose|j: int| 0 <= j < layout.len() && layout[j] == d;
        assert(d.translation == Translation::Identity);
    }
}

/// Above the kernel stack, the kernel's code and read-only data are mapped read-only and
/// executable, and its data and bss read-write and not executable.
pub proof fn lemma_kernel_layout_protects_code(
    ro_start: usize,
    ro_end: usize,
    bss_end: usize,
    addr: int,
)
    requires
        KERN_STACK_END < ro_start < ro_end < bss_end <= MMIO_BASE,
        ro_start <= addr < bss_end,
    ensures
        ({
            let attributes = virt_addr_properties(
                kernel_virtual_layout_spec(ro_start, ro_end, bss_end),
                addr,
            )->Ok_0.1;
            &&& addr < ro_end ==> attributes.acc_perms == AccessPermissions::ReadOnly
                && !attributes.execute_never
            &&& ro_end <= addr ==> attributes.acc_perms == AccessPermissions::ReadWrite
                && attributes.execute_never
        }),
{
    let layout = kernel_virtual_layout_spec(ro_start, ro_end, bss_end);
    reveal_with_fuel(first_match, 3);
    assert(!layout[0].contains(addr));
    assert(layout.drop_first()[0] == layout[1]);
    assert(layout.drop_first().drop_first()[0] == layout[2]);
    if addr < ro_end {
        assert(first_match(layout, addr) == Some(layout[1]));
    } else {
        assert(first_match(layout, addr) == Some(layout[2]));
    }
}

/// The size of `size` bytes in the largest of MiB and KiB of which it holds at least one, rounded
/// down, and the unit's name.
pub open spec fn size_in_unit(size: int) -> (int, Seq<char>) {
    if size / 0x10_0000 > 0 {
        (size / 0x10_0000, "MiB"@)
    } else if size / 0x400 > 0 {
        (size / 0x400, "KiB"@)
    } else {
        (size, "Byte"@)
    }
}

/// The text of a line of the layout listing: start and end as `0x` and at least eight upper-case
/// hexadecimal digits, the size right-aligned in three places and its unit, the attribute names
/// (the first and the last left-aligned in three places), and the name.
pub open spec fn layout_line(
    start: usize,
    end: usize,
    size: usize,
    unit: Seq<char>,
    attr: Seq<char>,
    acc: Seq<char>,
    xn: Seq<char>,
    name: Seq<char>,
) -> Seq<char> {
    "      "@ + hex_field(start as nat) + " - "@ + hex_field(end as nat) + " | "@ + pad_left(
        dec_digits(size as nat),
        3,
    ) + " "@ + unit + " | "@ + pad_right(attr, 3) + " "@ + acc + " "@ + pad_right(xn, 3) + " | "@
        + name
}

/// One line of the layout listing.
fn layout_line_string(
    start: usize,
    end: usize,
    size: usize,
    unit: &str,
    attr: &str,
    acc: &str,
    xn: &str,
    name: &str,
) -> (r: String)
    ensures
        r@ == layout_line(start, end, size, unit@, attr@, acc@, xn@, name@),
{
    proof {
        reveal_strlit("      ");
        reveal_strlit(" - ");
        reveal_strlit(" | ");
        reveal_strlit(" ");
    }
    let mut s = String::from_str("      ");
    push_hex_field(&mut s, start as u64);
    s.append(" - ");
    push_hex_field(&mut s, end as u64);
    s.append(" | ");
    push_dec_right_aligned(&mut s, size as u64, 3);
    s.append(" ");
    s.append(unit);
    s.append(" | ");
    push_str_left_aligned(&mut s, attr, 3);
    s.append(" ");
    s.append(acc);
    s.append(" ");
    push_str_left_aligned(&mut s, xn, 3);
    s.append(" | ");
    s.append(name);
    proof {
        assert(s@ =~= layout_line(start, end, size, unit@, attr@, acc@, xn@, name@));
    }
    s
}

impl Descriptor {
    /// The size of the range in the largest of MiB and KiB of which it holds at least one, and
    /// the unit's name.
    pub fn size_and_unit(&self) -> (r: (usize, &'static str))
        requires
            self.start <= self.end_inclusive,
            self.end_inclusive - self.start < usize::MAX,
        ensures
            r.0 == size_in_unit(self.end_inclusive - self.start + 1).0,
            r.1@ == size_in_unit(self.end_inclusive - self.start + 1).1,
    {
        let size = self.end_inclusive - self.start + 1;
        assert((size >> 20usize) == size / 0x10_0000) by (bit_vector);
        assert((size >> 10usize) == size / 0x400) by (bit_vector);
        if (size >> 20usize) > 0 {
            (size >> 20usize, "MiB")
        } else if (size >> 10usize) > 0 {
            (size >> 10usize, "KiB")
        } else {
            (size, "Byte")
        }
    }

    /// The names of the attributes: cacheable `C`, non-cacheable `NC` or device `Dev` memory;
    /// `RO` or `RW`; `PXN` when not executable, else `PX`.
    pub fn attribute_names(&self) -> (r: (&'static str, &'static str, &'static str))
        ensures
            r.0@ == match self.attribute_fields.mem_attributes {
                MemAttributes::CacheableDRAM => "C"@,
                MemAttributes::NonCacheableDRAM => "NC"@,
                MemAttributes::Device => "Dev"@,
            },
            r.1@ == match self.attribute_fields.acc_perms {
                AccessPermissions::ReadOnly => "RO"@,
                AccessPermissions::ReadWrite => "RW"@,
            },
            r.2@ == if self.attribute_fields.execute_never {
                "PXN"@
            } else {
                "PX"@
            },
    {
        let attr = match self.attribute_fields.mem_attributes {
            MemAttributes::CacheableDRAM => "C",
            MemAttributes::NonCacheableDRAM => "NC",
            MemAttributes::Device => "Dev",
        };
        let acc_p = match self.attribute_fields.acc_perms {
            AccessPermissions::ReadOnly => "RO",
            AccessPermissions::ReadWrite => "RW",
        };
        let xn = if self.attribute_fields.execute_never {
            "PXN"
        } else {
            "PX"
        };
        (attr, acc_p, xn)
    }

    /// Human-readable output of a descriptor.
    pub fn to_display_string(&self) -> (r: String)
        requires
            self.start <= self.end_inclusive,
            self.end_inclusive - self.start < usize::MAX,
        ensures
            ({
                let (size, unit) = size_in_unit(self.end_inclusive - self.start + 1);
                let attr = match self.attribute_fields.mem_attributes {
                    MemAttributes::CacheableDRAM => "C"@,
                    MemAttributes::NonCacheableDRAM => "NC"@,
                    MemAttributes::Device => "Dev"@,
                };
                let acc = match self.attribute_fields.acc_perms {
                    AccessPermissions::ReadOnly => "RO"@,
                    AccessPermissions::ReadWrite => "RW"@,
                };
                let xn = if self.attribute_fields.execute_never {
                    "PXN"@
                } else {
                    "PX"@
                };
                r@ == layout_line(
                    self.start,
                    self.end_inclusive,
                    size as usize,
                    unit,
                    attr,
                    acc,
                    xn,
                    self.name@,
                )
            }),
    {
        let (size, unit) = self.size_and_unit();
        let (attr, acc_p, xn) = self.attribute_names();
        layout_line_string(self.start, self.end_inclusive, size, unit, attr, acc_p, xn, self.name)
    }
}

} // verus!
