use tlsr82xx::clock::{clock_init, init, ClockState, SysClock};
use tlsr82xx::mmio::RegOp;
use tlsr82xx::timer::{
    clock_time_exceed_ticks, clock_time_exceed_us, configure_system_timer_periodic_irq, timer0_irq_phase,
    tlsr82xx_timer0_irq_tick, PeriodicIrq,
};

#[test]
fn clock_init_selects_known_codes_and_ignores_others() {
    let mut st = ClockState::new();
    let mut ops = Vec::new();
    clock_init(&mut st, &mut ops, 0x43);
    assert_eq!(st.current_mhz(), 16);
    assert_eq!(st.current(), 0x43);
    assert_eq!(ops, vec![RegOp::Write8 { addr: 0x0080_0066, value: 0x43 }]);
    ops.clear();
    clock_init(&mut st, &mut ops, 0x55);
    assert_eq!(st.current_mhz(), 16);
    assert!(ops.is_empty());
    init(&mut st, &mut ops, SysClock::Crystal48M);
    assert_eq!(st.current_mhz(), 48);
    assert_eq!(ops[1], RegOp::AnalogWrite { reg: 0x0c, value: 0xc6 });
    assert_eq!(SysClock::Rc32M.mhz(), 32);
}

#[test]
fn elapsed_time_handles_counter_wrap() {
    assert!(clock_time_exceed_ticks(5, 0xffff_fff0, 20));
    assert!(!clock_time_exceed_ticks(5, 0xffff_fff0, 21));
    assert!(clock_time_exceed_us(1000, 0, 62));
    assert!(!clock_time_exceed_us(1000, 0, 63));
}

#[test]
fn periodic_interrupt_counts_and_reports_handler() {
    let mut irq = PeriodicIrq::new();
    irq.callback = Some(0x40);
    let mut ops = Vec::new();
    configure_system_timer_periodic_irq(&mut irq, &mut ops, 100, 1000);
    assert!(irq.enabled);
    assert_eq!(irq.count, 0);
    assert!(ops.contains(&RegOp::Write32 { addr: 0x0080_0744, value: 1096 }));
    assert_eq!(tlsr82xx_timer0_irq_tick(&mut irq), Some(0x40));
    assert_eq!(irq.count, 1);
    assert!(timer0_irq_phase(irq.count));
}
