use rpi_kernel::board_drivers::{
    driver_gpio, driver_interrupt_controller, driver_uart, BoardDriver, DriverInit,
    DriverRegistration,
};
use rpi_kernel::bsp::Board;
use rpi_kernel::bump_allocator::{AllocErr, BumpAllocator};
use rpi_kernel::console::{
    Console, ConsoleOps, MiniUart, NullConsole, Output, PL011Uart as ConsoleUart,
    PL011UartError, PromptReply, PROMPT,
};
use rpi_kernel::cpu::{current_privilege_level, is_boot_core_in_el2, to_mask_str, PrivilegeLevel};
use rpi_kernel::driver::DeviceDriver;
use rpi_kernel::gpio::{GpioStep, GPIO};
use rpi_kernel::mailbox::{response_ok, uart_clock_request};
use rpi_kernel::sync::NullLock;
use rpi_kernel::uart::{
    fill_hack_pop, fill_hack_push, puts_chars, receive_char, PL011Uart, PL011UartInner,
    RegisterWrite, CR, FBRD, IBRD, ICR, ITCR, LCRH, TDR,
};

#[test]
fn privilege_levels() {
    let (level, name) = current_privilege_level(0b1000);
    assert!(level == PrivilegeLevel::Hypervisor);
    assert_eq!(name, "EL2");
    let (level, name) = current_privilege_level(0b0100);
    assert!(level == PrivilegeLevel::Kernel);
    assert_eq!(name, "EL1");
    let (level, name) = current_privilege_level(0);
    assert!(level == PrivilegeLevel::User);
    assert_eq!(name, "EL0");
    let (level, name) = current_privilege_level(0b1100);
    assert!(level == PrivilegeLevel::Unknown);
    assert_eq!(name, "Unknown");
    // Bits outside [3:2] are ignored.
    let (level, _) = current_privilege_level(0b1_0111);
    assert!(level == PrivilegeLevel::Kernel);
}

#[test]
fn boot_core_check() {
    assert!(is_boot_core_in_el2(0, 0b1000));
    assert!(is_boot_core_in_el2(0x8000_0000, 0b1000));
    assert!(!is_boot_core_in_el2(1, 0b1000));
    assert!(!is_boot_core_in_el2(3, 0b1000));
    assert!(!is_boot_core_in_el2(0, 0b0100));
    assert_eq!(to_mask_str(true), "Masked");
    assert_eq!(to_mask_str(false), "Unmasked");
}

#[test]
fn uart_character_conversion() {
    assert_eq!(receive_char(13), '\n');
    assert_eq!(receive_char(0x41), 'A');
    assert_eq!(receive_char(0x141), 'A');
    assert_eq!(receive_char(0x10D), '\n');
    assert_eq!(puts_chars("a\nb"), vec!['a', '\r', '\n', 'b']);
    assert_eq!(puts_chars(""), Vec::<char>::new());
    assert_eq!(puts_chars("\n\n"), vec!['\r', '\n', '\r', '\n']);
}

#[test]
fn uart_setup_writes() {
    let push4 = fill_hack_push(Board::RaspberryPi4);
    assert_eq!(push4.len(), 5);
    assert!(push4[0] == RegisterWrite { offset: ITCR, value: 0b10 });
    assert!(push4[1] == RegisterWrite { offset: TDR, value: 0x58 });
    assert!(push4[4] == RegisterWrite { offset: ITCR, value: 0 });
    let push3 = fill_hack_push(Board::RaspberryPi3);
    assert_eq!(push3.len(), 3);
    assert!(push3[1] == RegisterWrite { offset: TDR, value: 0x5A });
    assert_eq!(fill_hack_pop(Board::RaspberryPi4), 3);
    assert_eq!(fill_hack_pop(Board::RaspberryPi3), 1);

    let inner = PL011UartInner::new(0x3F20_1000);
    assert_eq!(inner.base_addr(), 0x3F20_1000);
    let qemu = inner.init(Board::RaspberryPi3, true);
    assert_eq!(qemu.len(), 8);
    assert!(qemu[0] == RegisterWrite { offset: CR, value: 0 });
    assert!(qemu[1] == RegisterWrite { offset: ICR, value: 0 });
    assert!(qemu[5] == RegisterWrite { offset: CR, value: 0x301 });
    let hw = inner.init(Board::RaspberryPi4, false);
    assert_eq!(hw.len(), 13);
    assert!(hw[8] == RegisterWrite { offset: ITCR, value: 0b10 });
}

#[test]
fn uart_statistics() {
    let mut inner = PL011UartInner::new(0x3F20_1000);
    assert_eq!(inner.write_char('x'), 'x' as u32);
    assert_eq!(inner.write_char('\n'), 10);
    assert_eq!(inner.read_char_converting(true, Some(13)), Some('\n'));
    assert_eq!(inner.read_char_converting(false, None), None);
    assert_eq!(inner.read_char_converting(false, Some(0x41)), Some('A'));
    assert_eq!(inner.chars_written(), 2);
    assert_eq!(inner.chars_read(), 2);

    let uart = PL011Uart::new(0x3F20_1000, 57);
    assert_eq!(uart.irq_number(), 57);
    assert_eq!(uart.compatible(), "BCM PL011 UART");
    assert_eq!(uart.init(), Ok(()));
}

#[test]
fn console_output_switching() {
    let mut console = Console::new();
    assert!(matches!(console.current_ptr(), Output::Null(_)));
    let flushed = std::cell::RefCell::new(Vec::new());
    console.replace_with(Output::from(ConsoleUart::new(0x3F20_1000)), |old: &Output| {
        flushed.borrow_mut().push(matches!(old, Output::Null(_)))
    });
    assert_eq!(*flushed.borrow(), vec![true]);
    match console.current_ptr() {
        Output::PL011Uart(u) => assert_eq!(u.base_addr(), 0x3F20_1000),
        _ => panic!("wrong output"),
    }
    console.replace_with(MiniUart::new(0x3F21_5040).into(), |old: &Output| {
        flushed.borrow_mut().push(matches!(old, Output::PL011Uart(_)))
    });
    assert_eq!(*flushed.borrow(), vec![true, true]);
    match console.current_ptr() {
        Output::MiniUart(u) => assert_eq!(u.base_addr(), 0x3F21_5040),
        _ => panic!("wrong output"),
    }
}

#[test]
fn uart_clock_request_and_pins() {
    let uart = ConsoleUart::new(0x3F20_1000);
    let (first, request) = uart.init_clock_request();
    assert!(first == RegisterWrite { offset: CR, value: 0 });
    assert_eq!(request, vec![36, 0, 0x38002, 12, 8, 2, 4_000_000, 0, 0]);
    assert_eq!(uart_clock_request(), request);
    assert!(response_ok(0x8000_0000));
    assert!(!response_ok(0x8000_0001));
    assert!(!response_ok(0));
    assert_eq!(
        GPIO::new(0x3F20_0000).map_pl011_uart(),
        vec![
            GpioStep::Modify { offset: 0x04, mask: 0x3_F000, value: 0x2_4000 },
            GpioStep::Write { offset: 0x94, value: 0 },
            GpioStep::WaitCycles(150),
            GpioStep::Modify { offset: 0x98, mask: 0xC000, value: 0xC000 },
            GpioStep::WaitCycles(150),
            GpioStep::Write { offset: 0x98, value: 0 },
        ]
    );
}

#[test]
fn command_prompt_replies() {
    assert!(Console::command_prompt('\n') == PromptReply::Prompt);
    assert!(Console::command_prompt('a') == PromptReply::Echo('a'));
    assert_eq!(PROMPT, "\n$> ");
    let null = NullConsole;
    null.putc('a');
    null.puts("abc");
    null.flush();
    assert_eq!(null.getc(), ' ');
}

#[test]
fn null_lock_grants_access() {
    let mut lock = NullLock::new(5u32);
    let r = lock.lock(|d: &mut u32| {
        *d += 1;
        *d
    });
    assert_eq!(r, 6);
    let r = lock.lock(|d: &mut u32| *d * 2);
    assert_eq!(r, 12);
}

#[test]
fn bump_allocation() {
    let mut a = BumpAllocator::new(0x20_0000, 0x5F_FFFF, "Global DMA Allocator");
    assert_eq!(a.name(), "Global DMA Allocator");
    assert_eq!(a.alloc_bytes(0x10, 8), Ok(0x20_0000));
    assert_eq!(a.alloc_bytes(1, 0x1000), Ok(0x20_1000));
    assert_eq!(a.alloc_bytes(0x40_0000, 8), Err(AllocErr));
    assert_eq!(a.alloc_bytes(8, 8), Ok(0x20_1008));
    assert_eq!(a.alloc_slice_zeroed(4, 4, 3), Err(()));
    assert_eq!(a.alloc_slice_zeroed(4, 4, 16), Ok(0x20_1010));
    assert_eq!(a.alloc_slice_zeroed(0x40_0000, 1, 16), Err(()));
    // Allocations may end exactly at the pool's end address.
    assert_eq!(a.alloc_bytes(0x5F_FFFF - 0x20_1020, 1), Ok(0x20_1020));
    assert_eq!(a.alloc_bytes(1, 1), Err(AllocErr));
}

#[test]
fn gpio_base() {
    assert_eq!(GPIO::new(0x3F20_0000).base_addr(), 0x3F20_0000);
}

#[test]
fn uart_setup_after_clock_request() {
    let uart = ConsoleUart::new(0x3F20_1000);
    assert_eq!(uart.init(false).err(), Some(PL011UartError::MailboxError));
    let writes = match uart.init(true) {
        Ok(w) => w,
        Err(_) => panic!("setup failed"),
    };
    assert!(
        writes
            == vec![
                RegisterWrite { offset: ICR, value: 0 },
                RegisterWrite { offset: IBRD, value: 2 },
                RegisterWrite { offset: FBRD, value: 0xB },
                RegisterWrite { offset: LCRH, value: 0x60 },
                RegisterWrite { offset: CR, value: 0x301 },
            ]
    );
}

#[test]
fn bump_allocations_are_disjoint_and_aligned() {
    let mut a = BumpAllocator::new(0x1003, 0x3000, "Pool");
    let first = a.alloc_bytes(0x100, 0x100).unwrap();
    let second = a.alloc_bytes(0x20, 0x1000).unwrap();
    assert_eq!(first, 0x1100);
    assert_eq!(second, 0x2000);
    assert_eq!(first % 0x100, 0);
    assert_eq!(second % 0x1000, 0);
    assert!(first + 0x100 <= second);
    assert!(second + 0x20 <= 0x3000);
}

#[test]
fn drivers_are_registered_once() {
    let mut init = DriverInit::new();
    let registrations = init.init(Board::RaspberryPi3).unwrap();
    assert_eq!(
        registrations,
        vec![
            DriverRegistration { driver: BoardDriver::PL011Uart, irq_number: Some(57) },
            DriverRegistration { driver: BoardDriver::GPIO, irq_number: None },
            DriverRegistration { driver: BoardDriver::InterruptController, irq_number: None },
        ]
    );
    assert_eq!(init.init(Board::RaspberryPi3), Err("Init already done"));
    assert_eq!(init.init(Board::RaspberryPi4), Err("Init already done"));

    assert_eq!(driver_uart(Board::RaspberryPi4).irq_number, Some(153));
    assert_eq!(driver_gpio().driver, BoardDriver::GPIO);
    assert_eq!(driver_interrupt_controller().irq_number, None);
}
