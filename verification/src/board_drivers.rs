//! The device drivers of the board, and the one-time registration of them with the kernel's
//! driver manager.

use vstd::prelude::*;
use crate::bsp::Board;

verus! {

/// The device drivers that the board instantiates.
#[derive(Copy, Clone, Debug, PartialEq, Eq, Structural)]
pub enum BoardDriver {
    PL011Uart,
    GPIO,
    InterruptController,
}

/// A driver to register with the driver manager: which driver, and the IRQ that it raises, if
/// any. Every driver of the board has a step to run after its initialization.
#[derive(Copy, Clone, Debug, PartialEq, Eq, Structural)]
pub struct DriverRegistration {
    pub driver: BoardDriver,
    pub irq_number: Option<usize>,
}

/// The IRQ number of the PL011 UART: peripheral IRQ 57 of the Raspberry Pi 3's interrupt
/// controller, interrupt 153 of the Raspberry Pi 4's GIC.
pub open spec fn pl011_uart_irq(board: Board) -> usize {
    match board {
        Board::RaspberryPi3 => 57,
        Board::RaspberryPi4 => 153,
    }
}

/// The registration of the UART driver.
pub fn driver_uart(board: Board) -> (r: DriverRegistration)
    ensures
        r == (DriverRegistration {
            driver: BoardDriver::PL011Uart,
            irq_number: Some(pl011_uart_irq(board)),
        }),
{
    let irq_number: usize = match board {
        Board::RaspberryPi3 => 57,
        Board::RaspberryPi4 => 153,
    };
    DriverRegistration { driver: BoardDriver::PL011Uart, irq_number: Some(irq_number) }
}

/// The registration of the GPIO driver.
pub fn driver_gpio() -> (r: DriverRegistration)
    ensures
        r == (DriverRegistration { driver: BoardDriver::GPIO, irq_number: None }),
{
    DriverRegistration { driver: BoardDriver::GPIO, irq_number: None }
}

/// The registration of the interrupt controller driver.
pub fn driver_interrupt_controller() -> (r: DriverRegistration)
    ensures
        r == (DriverRegistration { driver: BoardDriver::InterruptController, irq_number: None }),
{
    DriverRegistration { driver: BoardDriver::InterruptController, irq_number: None }
}

/// The registrations of the board's drivers, in order: UART, GPIO, interrupt controller.
pub open spec fn board_registrations(board: Board) -> Seq<DriverRegistration> {
    seq![
        DriverRegistration { driver: BoardDriver::PL011Uart, irq_number: Some(pl011_uart_irq(board)) },
        DriverRegistration { driver: BoardDriver::GPIO, irq_number: None },
        DriverRegistration { driver: BoardDriver::InterruptController, irq_number: None },
    ]
}

/// Message of the error that the drivers were registered already.
pub open spec fn init_done_message() -> Seq<char> {
    "Init already done"@
}

/// Whether the board's drivers have been registered.
pub struct DriverInit {
    init_done: bool,
}

impl DriverInit {
    /// Whether the board's drivers have been registered.
    pub closed spec fn spec_init_done(&self) -> bool {
        self.init_done
    }

    /// Nothing registered yet.
    pub fn new() -> (r: Self)
        ensures
            !r.spec_init_done(),
    {
        DriverInit { init_done: false }
    }

    /// Register the board's drivers, once: the registrations to hand to the driver manager, in
    /// order, or the error that this was done already.
    pub fn init(&mut self, board: Board) -> (r: Result<Vec<DriverRegistration>, &'static str>)
        ensures
            init_post(*old(self), board, *final(self), r),
    {
        if self.init_done {
            return Err("Init already done");
        }
        let mut registrations: Vec<DriverRegistration> = Vec::new();
        registrations.push(driver_uart(board));
        registrations.push(driver_gpio());
        registrations.push(driver_interrupt_controller());
        self.init_done = true;
        proof {
            assert(registrations@ =~= board_registrations(board));
        }
        Ok(registrations)
    }
}

/// The outcome of registering the drivers of `board` in state `old`, leaving state `new` and
/// returning `r`: the first time the registrations in order, afterwards the error; either way
/// the drivers count as registered.
pub open spec fn init_post(
    old: DriverInit,
    board: Board,
    new: DriverInit,
    r: Result<Vec<DriverRegistration>, &'static str>,
) -> bool {
    &&& new.spec_init_done()
    &&& old.spec_init_done() <==> r is Err
    &&& r matches Ok(registrations) ==> registrations@ == board_registrations(board)
    &&& r matches Err(e) ==> e@ == init_done_message()
}

/// The drivers are registered at most once: after a first call, every further call fails and
/// hands out nothing.
pub proof fn lemma_init_once(
    s0: DriverInit,
    board0: Board,
    s1: DriverInit,
    r1: Result<Vec<DriverRegistration>, &'static str>,
    board1: Board,
    s2: DriverInit,
    r2: Result<Vec<DriverRegistration>, &'static str>,
)
    requires
        init_post(s0, board0, s1, r1),
        init_post(s1, board1, s2, r2),
    ensures
        r2 is Err,
        r2->Err_0@ == init_done_message(),
        s2.spec_init_done(),
{
}

} // verus!
