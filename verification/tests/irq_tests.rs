use rpi_kernel::irq::{pending_irq_numbers, EnableRegister, IRQDescriptor, PeripheralIC};

fn descriptor(name: &'static str, handler: usize) -> IRQDescriptor {
    IRQDescriptor { name, handler }
}

#[test]
fn registration_is_permanent() {
    let mut ic = PeripheralIC::new();
    assert!(ic.registered_handlers().is_empty());
    assert_eq!(ic.register_handler(57, descriptor("BCM PL011 UART", 1)), Ok(()));
    assert_eq!(
        ic.register_handler(57, descriptor("Other", 2)),
        Err("IRQ handler already registered")
    );
    assert_eq!(ic.register_handler(3, descriptor("Timer", 3)), Ok(()));
    assert_eq!(ic.registered_handlers(), vec![(3, "Timer"), (57, "BCM PL011 UART")]);
}

#[test]
fn enable_registers_and_bits() {
    assert!(PeripheralIC::enable(9) == (EnableRegister::Enable1, 1 << 9));
    assert!(PeripheralIC::enable(31) == (EnableRegister::Enable1, 1 << 31));
    assert!(PeripheralIC::enable(32) == (EnableRegister::Enable2, 1));
    assert!(PeripheralIC::enable(57) == (EnableRegister::Enable2, 1 << 25));
}

#[test]
fn pending_registers_combine() {
    assert_eq!(PeripheralIC::get_pending(0b10, 0b1), (1u64 << 32) | 0b10);
    assert_eq!(PeripheralIC::get_pending(0, 0), 0);
    assert_eq!(PeripheralIC::get_pending(u32::MAX, u32::MAX), u64::MAX);
    assert_eq!(pending_irq_numbers((1u64 << 32) | 0b10), vec![1, 32]);
    assert_eq!(pending_irq_numbers(0), Vec::<usize>::new());
    assert_eq!(pending_irq_numbers(u64::MAX).len(), 64);
    assert_eq!(pending_irq_numbers(1u64 << 63), vec![63]);
}

#[test]
fn dispatch_calls_registered_handlers_in_order() {
    let mut ic = PeripheralIC::new();
    ic.register_handler(1, descriptor("One", 10)).unwrap();
    ic.register_handler(32, descriptor("ThirtyTwo", 20)).unwrap();

    let (handlers, unknown) = ic.handle_pending_irqs((1u64 << 32) | 0b10);
    let names: Vec<&str> = handlers.iter().map(|d| d.name).collect();
    assert_eq!(names, vec!["One", "ThirtyTwo"]);
    assert_eq!(handlers[1].handler, 20);
    assert_eq!(unknown, None);

    let (handlers, unknown) = ic.handle_pending_irqs((1u64 << 32) | (1 << 5) | 0b10);
    let names: Vec<&str> = handlers.iter().map(|d| d.name).collect();
    assert_eq!(names, vec!["One"]);
    assert_eq!(unknown, Some(5));

    let (handlers, unknown) = ic.handle_pending_irqs(0);
    assert!(handlers.is_empty());
    assert_eq!(unknown, None);
}
