//! A verified model of the memory-management, timing, interrupt and console logic of a small
//! AArch64 kernel for the Raspberry Pi 3 and 4.

pub mod common;
pub mod text;
pub mod address;
pub mod mmu_types;
pub mod page_alloc;
pub mod bsp;
pub mod kernel_mem_range;
pub mod translation_4k;
pub mod translation_64k;
pub mod cache_demo;
pub mod time;
pub mod irq;
pub mod sync;
pub mod bump_allocator;
pub mod cpu;
pub mod driver;
pub mod board_drivers;
pub mod gpio;
pub mod mailbox;
pub mod uart;
pub mod console;
pub mod memory;
pub mod dma_memory;
