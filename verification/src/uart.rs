//! PL011 UART drivers: the character conversions of the console, the register writes that set
//! the UART up, and the statistics it keeps.

use vstd::prelude::*;
use crate::bsp::Board;
use crate::driver::DeviceDriver;
use crate::sync::NullLock;

verus! {

/// The character that the console reads for the received byte: the low byte of the data
/// register, with a carriage return turned into a newline.
pub open spec fn received_char(data: u32) -> char {
    if (data as u8) == 13u8 {
        '\n'
    } else {
        ((data as u8) as u32) as char
    }
}

/// Convert the data register's value into the received character.
pub fn receive_char(data: u32) -> (r: char)
    ensures
        r == received_char(data),
{
    let byte = data as u8;
    let ret = byte as char;
    if ret == '\r' {
        '\n'
    } else {
        ret
    }
}

/// The characters sent for `s`: each newline preceded by a carriage return.
pub open spec fn sent_chars(s: Seq<char>) -> Seq<char>
    decreases s.len(),
{
    if s.len() == 0 {
        Seq::empty()
    } else if s.last() == '\n' {
        sent_chars(s.drop_last()) + seq!['\r', '\n']
    } else {
        sent_chars(s.drop_last()).push(s.last())
    }
}

/// The characters to send to display `string`: newlines become carriage return plus newline.
pub fn puts_chars(string: &str) -> (r: Vec<char>)
    ensures
        r@ == sent_chars(string@),
{
    let mut r: Vec<char> = Vec::new();
    for c in it: string.chars()
        invariant
            r@ == sent_chars(string@.take(it.index() as int)),
            it.seq() == string@,
    {
        proof {
            let t = string@.take(it.index() + 1);
            assert(t.drop_last() =~= string@.take(it.index() as int));
        }
        if c == '\n' {
            r.push('\r');
        }
        r.push(c);
    }
    proof { assert(string@.take(string@.len() as int) =~= string@); }
    r
}

/// The data register.
pub const DR: usize = 0x00;

/// The flag register.
pub const FR: usize = 0x18;

/// The integer baud rate divisor.
pub const IBRD: usize = 0x24;

/// The fractional baud rate divisor.
pub const FBRD: usize = 0x28;

/// The line control register.
pub const LCRH: usize = 0x2c;

/// The control register.
pub const CR: usize = 0x30;

/// The interrupt FIFO level select register.
pub const IFLS: usize = 0x34;

/// The interrupt mask set/clear register.
pub const IMSC: usize = 0x38;

/// The interrupt clear register.
pub const ICR: usize = 0x44;

/// The test control register.
pub const ITCR: usize = 0x80;

/// The test data register.
pub const TDR: usize = 0x8c;

/// A write of `value` to the register at `offset` from the UART's base address.
#[derive(Copy, Clone, PartialEq, Eq, Structural)]
pub struct RegisterWrite {
    pub offset: usize,
    pub value: u32,
}

/// The writes that push characters into the receive FIFO, so that the receive interrupt fires on
/// the first character that arrives from outside: test mode on, one character less than the
/// interrupt fill level (three on the Raspberry Pi 4, one on the Raspberry Pi 3), test mode off.
pub open spec fn fill_hack_push_spec(board: Board) -> Seq<RegisterWrite> {
    let fill = if board == Board::RaspberryPi4 {
        seq![
            RegisterWrite { offset: TDR, value: 0x58 },
            RegisterWrite { offset: TDR, value: 0x59 },
            RegisterWrite { offset: TDR, value: 0x5A },
        ]
    } else {
        seq![RegisterWrite { offset: TDR, value: 0x5A }]
    };
    seq![RegisterWrite { offset: ITCR, value: 0b10 }] + fill + seq![
        RegisterWrite { offset: ITCR, value: 0 },
    ]
}

/// The register writes that push fill characters into the receive FIFO.
pub fn fill_hack_push(board: Board) -> (r: Vec<RegisterWrite>)
    ensures
        r@ == fill_hack_push_spec(board),
{
    let mut r: Vec<RegisterWrite> = Vec::new();
    r.push(RegisterWrite { offset: ITCR, value: 0b10 });
    if board == Board::RaspberryPi4 {
        r.push(RegisterWrite { offset: TDR, value: 0x58 });
        r.push(RegisterWrite { offset: TDR, value: 0x59 });
    }
    r.push(RegisterWrite { offset: TDR, value: 0x5A });
    r.push(RegisterWrite { offset: ITCR, value: 0 });
    proof {
        assert(r@ =~= fill_hack_push_spec(board));
    }
    r
}

/// The number of fill characters to pop from the receive FIFO before reading a character.
pub fn fill_hack_pop(board: Board) -> (r: usize)
    ensures
        board == Board::RaspberryPi4 ==> r == 3,
        board == Board::RaspberryPi3 ==> r == 1,
{
    if board == Board::RaspberryPi4 {
        3
    } else {
        1
    }
}

/// The writes that set the UART up: turned off, interrupts cleared, baud rate divisors 13 and 2
/// (230400 baud with a 48 MHz clock), 8N1 with FIFOs, turned on with transmit and receive, receive
/// interrupt at 1/8 fill level and enabled; on hardware, followed by the fill characters.
pub open spec fn init_writes_spec(board: Board, qemu_quirks: bool) -> Seq<RegisterWrite> {
    let setup = seq![
        RegisterWrite { offset: CR, value: 0 },
        RegisterWrite { offset: ICR, value: 0 },
        RegisterWrite { offset: IBRD, value: 13 },
        RegisterWrite { offset: FBRD, value: 2 },
        RegisterWrite { offset: LCRH, value: 0x70 },
        RegisterWrite { offset: CR, value: 0x301 },
        RegisterWrite { offset: IFLS, value: 0 },
        RegisterWrite { offset: IMSC, value: 0x10 },
    ];
    if qemu_quirks {
        setup
    } else {
        setup + fill_hack_push_spec(board)
    }
}

/// The inner state of the PL011 UART: its base address and the characters it has written and
/// read.
pub struct PL011UartInner {
    base_addr: usize,
    chars_written: usize,
    chars_read: usize,
}

impl PL011UartInner {
    /// The base address of the register block.
    pub closed spec fn spec_base_addr(&self) -> usize {
        self.base_addr
    }

    /// The number of characters written.
    pub closed spec fn spec_chars_written(&self) -> usize {
        self.chars_written
    }

    /// The number of characters read.
    pub closed spec fn spec_chars_read(&self) -> usize {
        self.chars_read
    }

    /// Create an instance for the UART whose registers start at `base_addr`.
    pub fn new(base_addr: usize) -> (r: Self)
        ensures
            r.spec_base_addr() == base_addr,
            r.spec_chars_written() == 0,
            r.spec_chars_read() == 0,
    {
        Self { base_addr, chars_written: 0, chars_read: 0 }
    }

    /// The base address of the register block.
    pub fn base_addr(&self) -> (r: usize)
        ensures
            r == self.spec_base_addr(),
    {
        self.base_addr
    }

    /// The register writes that set up baud rate and characteristics: 8N1 and 230400 baud (if the
    /// clock has been set to 48 MHz by the firmware).
    pub fn init(&self, board: Board, qemu_quirks: bool) -> (r: Vec<RegisterWrite>)
        ensures
            r@ == init_writes_spec(board, qemu_quirks),
    {
        let mut r: Vec<RegisterWrite> = Vec::new();
        r.push(RegisterWrite { offset: CR, value: 0 });
        r.push(RegisterWrite { offset: ICR, value: 0 });
        r.push(RegisterWrite { offset: IBRD, value: 13 });
        r.push(RegisterWrite { offset: FBRD, value: 2 });
        r.push(RegisterWrite { offset: LCRH, value: (0b11u32 << 5u32) | (1u32 << 4u32) });
        r.push(RegisterWrite { offset: CR, value: 1u32 | (1u32 << 8u32) | (1u32 << 9u32) });
        r.push(RegisterWrite { offset: IFLS, value: 0 });
        r.push(RegisterWrite { offset: IMSC, value: 1u32 << 4u32 });
        assert((0b11u32 << 5u32) | (1u32 << 4u32) == 0x70) by (bit_vector);
        assert(1u32 | (1u32 << 8u32) | (1u32 << 9u32) == 0x301) by (bit_vector);
        assert(1u32 << 4u32 == 0x10) by (bit_vector);
        if !qemu_quirks {
            let mut fill = fill_hack_push(board);
            r.append(&mut fill);
        }
        proof {
            assert(r@ =~= init_writes_spec(board, qemu_quirks));
        }
        r
    }

    /// Send a character: the value for the data register. Counts the character as written.
    pub fn write_char(&mut self, c: char) -> (r: u32)
        requires
            old(self).spec_chars_written() < usize::MAX,
        ensures
            r == c as u32,
            final(self).spec_chars_written() == old(self).spec_chars_written() + 1,
            final(self).spec_chars_read() == old(self).spec_chars_read(),
            final(self).spec_base_addr() == old(self).spec_base_addr(),
    {
        self.chars_written = self.chars_written + 1;
        c as u32
    }

    /// Retrieve a character, converting a carriage return into a newline. `data` is the value of
    /// the data register, or nothing if the receive FIFO is empty; a blocking read waits until a
    /// character has arrived, so it always has one. Without a character, nothing is read and
    /// nothing counted; else the character is counted as read.
    pub fn read_char_converting(&mut self, blocking: bool, data: Option<u32>) -> (r: Option<char>)
        requires
            blocking ==> data is Some,
            data is Some ==> old(self).spec_chars_read() < usize::MAX,
        ensures
            data is None ==> r is None && final(self).spec_chars_read() == old(
                self,
            ).spec_chars_read(),
            data matches Some(d) ==> r == Some(received_char(d)) && final(self).spec_chars_read()
                == old(self).spec_chars_read() + 1,
            final(self).spec_chars_written() == old(self).spec_chars_written(),
            final(self).spec_base_addr() == old(self).spec_base_addr(),
    {
        match data {
            None => None,
            Some(d) => {
                self.chars_read = self.chars_read + 1;
                Some(receive_char(d))
            },
        }
    }

    /// The number of characters written.
    pub fn chars_written(&self) -> (r: usize)
        ensures
            r == self.spec_chars_written(),
    {
        self.chars_written
    }

    /// The number of characters read.
    pub fn chars_read(&self) -> (r: usize)
        ensures
            r == self.spec_chars_read(),
    {
        self.chars_read
    }
}

/// Representation of the UART: its inner state behind a lock, and its IRQ number.
pub struct PL011Uart {
    inner: NullLock<PL011UartInner>,
    irq_number: usize,
}

impl PL011Uart {
    /// The IRQ number of the UART.
    pub closed spec fn spec_irq_number(&self) -> usize {
        self.irq_number
    }

    /// The UART whose registers start at `base_addr` and which raises `irq_number`.
    pub fn new(base_addr: usize, irq_number: usize) -> (r: Self)
        ensures
            r.spec_irq_number() == irq_number,
            r.spec_inner().spec_base_addr() == base_addr,
            r.spec_inner().spec_chars_written() == 0,
            r.spec_inner().spec_chars_read() == 0,
    {
        Self { inner: NullLock::new(PL011UartInner::new(base_addr)), irq_number }
    }

    /// The inner state of the UART.
    pub closed spec fn spec_inner(&self) -> PL011UartInner {
        self.inner.spec_data()
    }

    /// The IRQ number of the UART.
    pub fn irq_number(&self) -> (r: usize)
        ensures
            r == self.spec_irq_number(),
    {
        self.irq_number
    }

    /// Grant the closure mutable access to the UART's inner state, under the UART's lock, and
    /// return what the closure returns.
    pub fn lock_inner<R, F: FnOnce(&mut PL011UartInner) -> R>(&mut self, f: F) -> (r: R)
        requires
            forall|d: &mut PL011UartInner| #[trigger] f.requires((d,)),
        ensures
            final(self).spec_irq_number() == old(self).spec_irq_number(),
            exists|d: &mut PL011UartInner|
                *d == old(self).spec_inner() && *final(d) == final(self).spec_inner()
                    && #[trigger] f.ensures((d,), r),
    {
        self.inner.lock(f)
    }
}

impl DeviceDriver for PL011Uart {
    fn compatible(&self) -> (r: &'static str)
        ensures
            r@ == "BCM PL011 UART"@,
    {
        "BCM PL011 UART"
    }
}

/// The character received for a data register value is its low byte, except a carriage return,
/// which comes in as a newline.
pub proof fn lemma_received_char_is_low_byte(data: u32)
    ensures
        data % 256 != 13 ==> received_char(data) as u32 == data % 256,
        data % 256 == 13 ==> received_char(data) == '\n',
{
    assert((data as u8) as u32 == data % 256) by (bit_vector);
}

/// `t` with every carriage return that directly precedes a newline taken out.
pub open spec fn without_cr_before_lf(t: Seq<char>) -> Seq<char>
    decreases t.len(),
{
    if t.len() == 0 {
        t
    } else if t.len() >= 2 && t.last() == '\n' && t[t.len() - 2] == '\r' {
        without_cr_before_lf(t.subrange(0, t.len() - 2)).push('\n')
    } else {
        without_cr_before_lf(t.drop_last()).push(t.last())
    }
}

/// The number of newlines in `s`.
pub open spec fn newline_count(s: Seq<char>) -> nat
    decreases s.len(),
{
    if s.len() == 0 {
        0
    } else {
        newline_count(s.drop_last()) + if s.last() == '\n' { 1nat } else { 0nat }
    }
}

/// Every character of a string is sent, in order: taking out the carriage return sent before
/// each newline gives back the string, and exactly one character more is sent per newline.
pub proof fn lemma_sent_chars_are_the_string(s: Seq<char>)
    ensures
        without_cr_before_lf(sent_chars(s)) == s,
        sent_chars(s).len() == s.len() + newline_count(s),
    decreases s.len(),
{
    if s.len() > 0 {
        let p = s.drop_last();
        lemma_sent_chars_are_the_string(p);
        let t = sent_chars(s);
        if s.last() == '\n' {
            assert(t.subrange(0, t.len() - 2) =~= sent_chars(p));
        } else {
            assert(t.drop_last() =~= sent_chars(p));
        }
        assert(without_cr_before_lf(t) =~= s);
    }
}

/// The PL011 baud rate for a UART clock of `clock` Hz and the divisors `ibrd` (integer part) and
/// `fbrd` (64ths): `clock / (16 * (ibrd + fbrd / 64))`, rounded down.
pub open spec fn pl011_baud_rate(clock: int, ibrd: int, fbrd: int) -> int {
    (clock * 4) / (64 * ibrd + fbrd)
}

/// The setup writes turn the UART off first, clear its interrupts, program 230400 baud from the
/// 48 MHz UART clock (integer divisor 48 MHz / (16 * 230400), fractional divisor 2/64, the
/// resulting rate within 0.1%), select 8-bit words with FIFOs, turn the UART on with transmit and
/// receive, and enable the receive interrupt.
pub proof fn lemma_init_writes_program_230400_baud(board: Board, qemu_quirks: bool)
    ensures
        ({
            let w = init_writes_spec(board, qemu_quirks);
            &&& w.len() >= 8
            &&& w[0] == RegisterWrite { offset: CR, value: 0 }
            &&& w[1].offset == ICR
            &&& w[2].offset == IBRD
            &&& w[3].offset == FBRD
            &&& w[2].value == 48_000_000int / (16 * 230_400int)
            &&& w[3].value == 2
            &&& (pl011_baud_rate(48_000_000, w[2].value as int, w[3].value as int) - 230_400) * 1000
                <= 230_400
            &&& (230_400 - pl011_baud_rate(48_000_000, w[2].value as int, w[3].value as int)) * 1000
                <= 230_400
            &&& w[4].offset == LCRH && (w[4].value / 32) % 4 == 3 && (w[4].value / 16) % 2 == 1
            &&& w[5].offset == CR && w[5].value % 2 == 1 && (w[5].value / 256) % 2 == 1 && (
            w[5].value / 512) % 2 == 1
            &&& w[7].offset == IMSC && (w[7].value / 16) % 2 == 1
        }),
{
    vstd::arithmetic::div_mod::lemma_fundamental_div_mod_converse(192_000_000, 834, 230_215, 690);
    assert(pl011_baud_rate(48_000_000, 13, 2) == 230_215);
}

} // verus!
