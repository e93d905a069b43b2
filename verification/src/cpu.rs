//! Processor state: privilege levels, the boot core check and exception mask reporting.

use vstd::prelude::*;

verus! {

/// Architectural privilege level.
#[derive(Copy, Clone, PartialEq, Eq, Structural)]
pub enum PrivilegeLevel {
    User,
    Kernel,
    Hypervisor,
    Unknown,
}

/// The exception level held in bits [3:2] of the `CurrentEL` register.
pub open spec fn exception_level(current_el: u64) -> u64 {
    (current_el >> 2u64) & 0b11
}

/// The processing element's current privilege level, and its name, from the value of the
/// `CurrentEL` register.
pub fn current_privilege_level(current_el: u64) -> (r: (PrivilegeLevel, &'static str))
    ensures
        exception_level(current_el) == 2 ==> r.0 == PrivilegeLevel::Hypervisor && r.1@ == "EL2"@,
        exception_level(current_el) == 1 ==> r.0 == PrivilegeLevel::Kernel && r.1@ == "EL1"@,
        exception_level(current_el) == 0 ==> r.0 == PrivilegeLevel::User && r.1@ == "EL0"@,
        exception_level(current_el) == 3 ==> r.0 == PrivilegeLevel::Unknown && r.1@ == "Unknown"@,
{
    let el = (current_el >> 2u64) & 0b11;
    if el == 2 {
        (PrivilegeLevel::Hypervisor, "EL2")
    } else if el == 1 {
        (PrivilegeLevel::Kernel, "EL1")
    } else if el == 0 {
        (PrivilegeLevel::User, "EL0")
    } else {
        (PrivilegeLevel::Unknown, "Unknown")
    }
}

/// The number of the core that boots the kernel.
pub const BOOT_CORE_ID: u64 = 0;

/// The bits of `MPIDR_EL1` that hold the core number.
pub const CORE_MASK: u64 = 0x3;

/// The value of `CurrentEL` in exception level 2.
pub const CURRENT_EL_EL2: u64 = 0b10 << 2;

/// Whether the core with affinity register `mpidr` and `CurrentEL` value `current_el` is the boot
/// core, started in EL2, and so goes on to the transition to EL1; any other core waits forever.
pub fn is_boot_core_in_el2(mpidr: u64, current_el: u64) -> (r: bool)
    ensures
        r == ((mpidr & CORE_MASK) == BOOT_CORE_ID && current_el == CURRENT_EL_EL2),
{
    (BOOT_CORE_ID == mpidr & CORE_MASK) && (current_el == CURRENT_EL_EL2)
}

/// How an exception mask bit reads in the exception state report.
pub fn to_mask_str(masked: bool) -> (r: &'static str)
    ensures
        masked ==> r@ == "Masked"@,
        !masked ==> r@ == "Unmasked"@,
{
    if masked {
        "Masked"
    } else {
        "Unmasked"
    }
}

} // verus!
