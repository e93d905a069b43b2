//! The GPIO block.

use vstd::prelude::*;

verus! {

/// GPIO function select register 1 (pins 10 to 19).
pub const GPFSEL1: usize = 0x04;

/// GPIO pull-up/down enable register.
pub const GPPUD: usize = 0x94;

/// GPIO pull-up/down clock register 0.
pub const GPPUDCLK0: usize = 0x98;

/// A step in programming the GPIO block.
#[derive(Copy, Clone, Debug, PartialEq, Eq, Structural)]
pub enum GpioStep {
    /// Read the register at `offset`, clear the bits of `mask`, set the bits of `value`, and
    /// write the result back.
    Modify { offset: usize, mask: u32, value: u32 },
    /// Write `value` to the register at `offset`.
    Write { offset: usize, value: u32 },
    /// Wait for this many CPU cycles.
    WaitCycles(u32),
}

/// The steps that map the PL011 UART to GPIO pins 14 and 15: alternate function 0 (TXD0, RXD0)
/// for both pins, pull-up/down off, and the new setting clocked into both pins, with a wait of
/// 150 cycles after each change of the control signal.
pub open spec fn pl011_pin_steps() -> Seq<GpioStep> {
    seq![
        GpioStep::Modify { offset: GPFSEL1, mask: 0x3_F000, value: 0x2_4000 },
        GpioStep::Write { offset: GPPUD, value: 0 },
        GpioStep::WaitCycles(150),
        GpioStep::Modify { offset: GPPUDCLK0, mask: 0xC000, value: 0xC000 },
        GpioStep::WaitCycles(150),
        GpioStep::Write { offset: GPPUDCLK0, value: 0 },
    ]
}

/// Public interface to the GPIO MMIO area.
pub struct GPIO {
    base_addr: usize,
}

impl GPIO {
    /// The base address of the register block.
    pub closed spec fn spec_base_addr(&self) -> usize {
        self.base_addr
    }

    /// The GPIO block whose registers start at `base_addr`.
    pub fn new(base_addr: usize) -> (r: GPIO)
        ensures
            r.spec_base_addr() == base_addr,
    {
        GPIO { base_addr }
    }

    /// The base address of the register block.
    pub fn base_addr(&self) -> (r: usize)
        ensures
            r == self.spec_base_addr(),
    {
        self.base_addr
    }

    /// The steps that map the PL011 UART to GPIO pins 14 and 15.
    pub fn map_pl011_uart(&self) -> (r: Vec<GpioStep>)
        ensures
            r@ == pl011_pin_steps(),
    {
        let fsel_mask: u32 = (0b111u32 << 12u32) | (0b111u32 << 15u32);
        let fsel_alt0: u32 = (0b100u32 << 12u32) | (0b100u32 << 15u32);
        let pins: u32 = (1u32 << 14u32) | (1u32 << 15u32);
        assert(fsel_mask == 0x3_F000 && fsel_alt0 == 0x2_4000 && pins == 0xC000) by (bit_vector)
            requires
                fsel_mask == (0b111u32 << 12u32) | (0b111u32 << 15u32),
                fsel_alt0 == (0b100u32 << 12u32) | (0b100u32 << 15u32),
                pins == (1u32 << 14u32) | (1u32 << 15u32),
        ;
        let mut r: Vec<GpioStep> = Vec::new();
        r.push(GpioStep::Modify { offset: GPFSEL1, mask: fsel_mask, value: fsel_alt0 });
        r.push(GpioStep::Write { offset: GPPUD, value: 0 });
        r.push(GpioStep::WaitCycles(150));
        r.push(GpioStep::Modify { offset: GPPUDCLK0, mask: pins, value: pins });
        r.push(GpioStep::WaitCycles(150));
        r.push(GpioStep::Write { offset: GPPUDCLK0, value: 0 });
        proof {
            assert(r@ =~= pl011_pin_steps());
        }
        r
    }
}

} // verus!
