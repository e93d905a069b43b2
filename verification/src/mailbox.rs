//! The VideoCore mailbox's property interface, as far as the kernel uses it: the request that
//! sets the clock of the PL011 UART, and the check of the firmware's response.

use vstd::prelude::*;

verus! {

/// Code of a buffer that holds a request.
pub const REQUEST: u32 = 0;

/// Code of a buffer whose request the firmware has carried out.
pub const RESPONSE_SUCCESS: u32 = 0x8000_0000;

/// Tag of the request that sets a clock's rate.
pub const TAG_SETCLKRATE: u32 = 0x0003_8002;

/// Tag that ends a request.
pub const TAG_LAST: u32 = 0;

/// Id of the UART's clock.
pub const CLOCK_UART: u32 = 2;

/// The channel of the property interface.
pub const CHANNEL_PROP: u32 = 8;

/// The request that sets the UART clock to 4 MHz: the buffer's size in bytes (nine words), the
/// request code, the set-clock-rate tag with its value buffer of 12 bytes and request size 8, the
/// UART clock's id, the rate, "skip turbo setting", and the end tag.
pub open spec fn uart_clock_request_words() -> Seq<u32> {
    seq![36, REQUEST, TAG_SETCLKRATE, 12, 8, CLOCK_UART, 4_000_000, 0, TAG_LAST]
}

/// The words of the request that sets the UART clock to 4 MHz.
pub fn uart_clock_request() -> (r: Vec<u32>)
    ensures
        r@ == uart_clock_request_words(),
{
    let mut r: Vec<u32> = Vec::new();
    r.push(9 * 4);
    r.push(REQUEST);
    r.push(TAG_SETCLKRATE);
    r.push(12);
    r.push(8);
    r.push(CLOCK_UART);
    r.push(4_000_000);
    r.push(0);
    r.push(TAG_LAST);
    proof {
        assert(r@ =~= uart_clock_request_words());
    }
    r
}

/// Whether the response code that the firmware wrote into the buffer reports success.
pub fn response_ok(response_code: u32) -> (r: bool)
    ensures
        r == (response_code == RESPONSE_SUCCESS),
{
    response_code == RESPONSE_SUCCESS
}

} // verus!
