# rpi_kernel

The logic of a small AArch64 kernel for the Raspberry Pi 3 and 4, written in Verus and
proved against its contracts: address arithmetic, page slices and MMIO regions, the page
allocator, the kernel's virtual memory layout and the translation tables built from it, the
architectural timer's conversions, the interrupt controller's handler table and dispatch, the
UART's character conversions and setup sequences, the console and a bump allocator.

Layout:

- `src/` – the verified library. Each module states its data in spec functions and views,
  its operations with `requires`/`ensures`, and the properties that span operations as public
  proof functions (`lemma_*`).
- `tests/` – tests of the library on concrete values.
- `app/` – the kernel program around the library: system registers (through `aarch64-cpu`),
  device registers (through `tock-registers`), linker symbols, global state, the boot flow and
  the console loop.
