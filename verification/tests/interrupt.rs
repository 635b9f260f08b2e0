use tlsr82xx::interrupt::{DispatchStep, Irq, IrqEntry, IrqHandlers, RamGlobalIrqHandler, RamIrqHandler};

#[test]
fn registered_handler_is_called_for_its_pending_bit() {
    let mut h = IrqHandlers::new();
    h.register_irq_handler(Irq::Timer1, RamIrqHandler::new(0x100), 0x0, 0x1000);
    match h.irq_handler(0b11, 0b10) {
        IrqEntry::Dispatch { steps } => {
            assert_eq!(steps, vec![DispatchStep::Call { handler: 0x100, arg: 0b10 }]);
        },
        _ => panic!("expected a dispatch"),
    }
    match h.irq_handler(0b01, 0xffff_ffff) {
        IrqEntry::Dispatch { steps } => assert!(steps.is_empty()),
        _ => panic!("expected a dispatch"),
    }
}

#[test]
fn irq_numbers_round_trip_through_bits() {
    assert_eq!(Irq::from_bit(Irq::SystemTimer.bit()), Some(Irq::SystemTimer));
    assert_eq!(Irq::SystemTimer.mask(), 1 << 20);
}

#[test]
fn global_handler_takes_every_interrupt() {
    let mut h = IrqHandlers::new();
    h.register_global_irq_handler(RamGlobalIrqHandler::new(0x200), 0x0, 0x1000);
    assert!(matches!(h.irq_handler(0xffff_ffff, 0xffff_ffff), IrqEntry::Global { handler: 0x200 }));
    h.unregister_global_irq_handler();
    assert!(matches!(h.irq_handler(0, 0), IrqEntry::Dispatch { .. }));
}
