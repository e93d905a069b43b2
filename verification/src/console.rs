//! The kernel's console: the devices it can print to, and the command prompt.

use vstd::prelude::*;
use crate::uart::{pl011_baud_rate, RegisterWrite, CR, FBRD, IBRD, ICR, LCRH};
use crate::mailbox::{uart_clock_request, uart_clock_request_words};

verus! {

/// A PL011 UART, by the base address of its registers.
pub struct PL011Uart {
    base_addr: usize,
}

/// A mini UART, by the base address of its registers.
pub struct MiniUart {
    base_addr: usize,
}

impl PL011Uart {
    /// The base address of the register block.
    pub closed spec fn spec_base_addr(&self) -> usize {
        self.base_addr
    }

    /// The UART whose registers start at `base_addr`.
    pub fn new(base_addr: usize) -> (r: PL011Uart)
        ensures
            r.spec_base_addr() == base_addr,
    {
        PL011Uart { base_addr }
    }

    /// The base address of the register block.
    pub fn base_addr(&self) -> (r: usize)
        ensures
            r == self.spec_base_addr(),
    {
        self.base_addr
    }
}

/// Errors of the UART's setup.
#[derive(Copy, Clone, Debug, PartialEq, Eq, Structural)]
pub enum PL011UartError {
    /// The mailbox call that sets the UART clock failed.
    MailboxError,
}

/// The writes that finish the setup of a UART clocked at 4 MHz: interrupts cleared, baud rate
/// divisors 2 and 11 (115200 baud), 8N1, turned on with transmit and receive.
pub open spec fn baud_115200_writes() -> Seq<RegisterWrite> {
    seq![
        RegisterWrite { offset: ICR, value: 0 },
        RegisterWrite { offset: IBRD, value: 2 },
        RegisterWrite { offset: FBRD, value: 0xB },
        RegisterWrite { offset: LCRH, value: 0x60 },
        RegisterWrite { offset: CR, value: 0x301 },
    ]
}

/// The writes that finish the setup of a UART clocked at 4 MHz clear its interrupts, program
/// 115200 baud (integer divisor 4 MHz / (16 * 115200), the resulting rate within 0.1%), select
/// 8-bit words, and turn the UART on with transmit and receive.
pub proof fn lemma_baud_115200_writes_program_115200_baud()
    ensures
        ({
            let w = baud_115200_writes();
            &&& w.len() == 5
            &&& w[0].offset == ICR
            &&& w[1].offset == IBRD
            &&& w[2].offset == FBRD
            &&& w[1].value == 4_000_000int / (16 * 115_200int)
            &&& w[2].value < 64
            &&& (pl011_baud_rate(4_000_000, w[1].value as int, w[2].value as int) - 115_200) * 1000
                <= 115_200
            &&& (115_200 - pl011_baud_rate(4_000_000, w[1].value as int, w[2].value as int)) * 1000
                <= 115_200
            &&& w[3].offset == LCRH && (w[3].value / 32) % 4 == 3
            &&& w[4].offset == CR && w[4].value % 2 == 1 && (w[4].value / 256) % 2 == 1 && (
            w[4].value / 512) % 2 == 1
        }),
{
    vstd::arithmetic::div_mod::lemma_fundamental_div_mod_converse(16_000_000, 139, 115_107, 127);
    assert(pl011_baud_rate(4_000_000, 2, 11) == 115_107);
}

impl PL011Uart {
    /// The start of the UART's setup: the write that turns the UART off, and the mailbox request
    /// that sets its clock to 4 MHz, for consistent divisor values.
    pub fn init_clock_request(&self) -> (r: (RegisterWrite, Vec<u32>))
        ensures
            r.0 == (RegisterWrite { offset: CR, value: 0 }),
            r.1@ == uart_clock_request_words(),
    {
        (RegisterWrite { offset: CR, value: 0 }, uart_clock_request())
    }

    /// Set baud rate and characteristics (115200 8N1), once the mailbox call that sets the UART
    /// clock to 4 MHz has returned: abort if the call failed, else the register writes to make
    /// after the UART's pins have been mapped.
    pub fn init(&self, clock_set: bool) -> (r: Result<Vec<RegisterWrite>, PL011UartError>)
        ensures
            clock_set <==> r is Ok,
            r matches Ok(writes) ==> writes@ == baud_115200_writes(),
            r matches Err(e) ==> e == PL011UartError::MailboxError,
    {
        if !clock_set {
            return Err(PL011UartError::MailboxError);
        }
        let mut writes: Vec<RegisterWrite> = Vec::new();
        writes.push(RegisterWrite { offset: ICR, value: 0 });
        writes.push(RegisterWrite { offset: IBRD, value: 2 });
        writes.push(RegisterWrite { offset: FBRD, value: 0xB });
        writes.push(RegisterWrite { offset: LCRH, value: 0b11u32 << 5u32 });
        writes.push(RegisterWrite { offset: CR, value: 1u32 | (1u32 << 8u32) | (1u32 << 9u32) });
        assert(0b11u32 << 5u32 == 0x60) by (bit_vector);
        assert(1u32 | (1u32 << 8u32) | (1u32 << 9u32) == 0x301) by (bit_vector);
        proof {
            assert(writes@ =~= baud_115200_writes());
        }
        Ok(writes)
    }
}

impl MiniUart {
    /// The base address of the register block.
    pub closed spec fn spec_base_addr(&self) -> usize {
        self.base_addr
    }

    /// The UART whose registers start at `base_addr`.
    pub fn new(base_addr: usize) -> (r: MiniUart)
        ensures
            r.spec_base_addr() == base_addr,
    {
        MiniUart { base_addr }
    }

    /// The base address of the register block.
    pub fn base_addr(&self) -> (r: usize)
        ensures
            r == self.spec_base_addr(),
    {
        self.base_addr
    }
}

/// A trait that must be implemented by devices that are candidates for the global console. By
/// default a device ignores what it is given and reads spaces.
pub trait ConsoleOps {
    /// Send a character.
    fn putc(&self, c: char) {
    }

    /// Display a string.
    fn puts(&self, string: &str) {
    }

    /// Receive a character.
    fn getc(&self) -> (r: char)
        default_ensures
            r == ' ',
    {
        ' '
    }

    /// Wait until everything sent has left the device.
    fn flush(&self) {
    }
}

/// A dummy console that just ignores its inputs.
pub struct NullConsole;

impl ConsoleOps for NullConsole {

}

/// Possible outputs which the console can store.
pub enum Output {
    Null(NullConsole),
    MiniUart(MiniUart),
    PL011Uart(PL011Uart),
}

impl From<MiniUart> for Output {
    fn from(instance: MiniUart) -> (r: Self) {
        Output::MiniUart(instance)
    }
}

impl vstd::std_specs::convert::FromSpecImpl<MiniUart> for Output {
    open spec fn obeys_from_spec() -> bool {
        true
    }

    open spec fn from_spec(instance: MiniUart) -> Self {
        Output::MiniUart(instance)
    }
}

impl From<PL011Uart> for Output {
    fn from(instance: PL011Uart) -> (r: Self) {
        Output::PL011Uart(instance)
    }
}

impl vstd::std_specs::convert::FromSpecImpl<PL011Uart> for Output {
    open spec fn obeys_from_spec() -> bool {
        true
    }

    open spec fn from_spec(instance: PL011Uart) -> Self {
        Output::PL011Uart(instance)
    }
}

/// The console: the output device that printing goes to.
pub struct Console {
    output: Output,
}

/// The prompt of the command prompt.
pub const PROMPT: &'static str = "\n$> ";

/// What the command prompt prints in reply to a character.
#[derive(Copy, Clone, PartialEq, Eq, Structural)]
pub enum PromptReply {
    /// Print a fresh prompt.
    Prompt,
    /// Echo the character.
    Echo(char),
}

impl Console {
    /// The current output.
    pub closed spec fn spec_output(&self) -> Output {
        self.output
    }

    /// A console that prints nowhere.
    pub fn new() -> (r: Console)
        ensures
            r.spec_output() is Null,
    {
        Console { output: Output::Null(NullConsole) }
    }

    /// The current output.
    pub fn current_ptr(&self) -> (r: &Output)
        ensures
            *r == self.spec_output(),
    {
        &self.output
    }

    /// Overwrite the current output: `flush` is called on the current output, once, before the new
    /// one takes its place; the old output then goes out of scope.
    pub fn replace_with<F: FnOnce(&Output)>(&mut self, x: Output, flush: F)
        requires
            flush.requires((&old(self).spec_output(),)),
        ensures
            final(self).spec_output() == x,
            flush.ensures((&old(self).spec_output(),), ()),
    {
        let u = flush(&self.output);
        assert(u == ());
        self.output = x;
    }

    /// The command prompt's reply to an input character: a fresh prompt after a newline, else the
    /// character echoed.
    pub fn command_prompt(input: char) -> (r: PromptReply)
        ensures
            input == '\n' ==> r == PromptReply::Prompt,
            input != '\n' ==> r == PromptReply::Echo(input),
    {
        if input == '\n' {
            PromptReply::Prompt
        } else {
            PromptReply::Echo(input)
        }
    }
}

} // verus!
