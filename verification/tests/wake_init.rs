use tlsr82xx::mmio::RegOp;
use tlsr82xx::startup::{
    cpu_wakeup_no_deepretn_back_init, efuse_stack_clear, startup_cpu_wakeup_init, startup_sleep_start_enter,
    startup_sleep_start_leave, wakeup_init_step, InitPass, PmGlobals, WakeInitAction, WakeInitEvent, WakeStage,
    MCU_STATUS_DEEPRET_BACK, MCU_STATUS_DEEP_BACK,
};

#[test]
fn retention_wake_records_the_source_and_rebuilds_the_tick() {
    let mut g = PmGlobals::new();
    let mut ops = Vec::new();
    assert_eq!(startup_cpu_wakeup_init(&mut g, &mut ops), WakeInitAction::ReadBootFlags);
    assert_eq!(ops.len(), 18);
    assert_eq!(ops[0], RegOp::Write8 { addr: 0x0080_0060, value: 0 });
    ops.clear();
    let a = wakeup_init_step(&mut g, &mut ops, WakeInitEvent::BootFlags { sram_shutdown_sel: 1, ana_7f: 0, ana_3c: 0 });
    assert_eq!(a, WakeInitAction::ReadWakeSource);
    assert_eq!(g.pm_param.mcu_status, MCU_STATUS_DEEPRET_BACK);
    assert_eq!(ops, vec![RegOp::AnalogWrite { reg: 0x01, value: 0x3c }]);
    assert_eq!(wakeup_init_step(&mut g, &mut ops, WakeInitEvent::WakeSource(0x08)), WakeInitAction::Read32kTick);
    assert_eq!((g.pm_param.wakeup_src, g.pm_param.is_pad_wakeup), (0x08, 1));
    let a = wakeup_init_step(&mut g, &mut ops, WakeInitEvent::Tick32k(1000));
    assert_eq!(a, WakeInitAction::WaitXtalReady(WakeStage::Finish));
    assert_eq!(g.tick_cur, 1000);
    ops.clear();
    assert_eq!(wakeup_init_step(&mut g, &mut ops, WakeInitEvent::XtalReady(WakeStage::Finish)), WakeInitAction::Done);
    assert_eq!(ops[2], RegOp::Modify8 { addr: 0x0080_05b5, clear: 0, set: 0x0c });
}

#[test]
fn deep_wake_runs_the_clock_initialisation_twice() {
    let mut g = PmGlobals::new();
    let mut ops = Vec::new();
    let a = wakeup_init_step(&mut g, &mut ops, WakeInitEvent::BootFlags { sram_shutdown_sel: 0, ana_7f: 1, ana_3c: 0xff });
    assert_eq!(a, WakeInitAction::WaitXtalReady(WakeStage::DeepInit(InitPass::First)));
    assert_eq!(g.pm_param.mcu_status, MCU_STATUS_DEEP_BACK);
    assert_eq!(ops[1], RegOp::AnalogWrite { reg: 0x3c, value: 0xfd });
    let a = wakeup_init_step(&mut g, &mut ops, WakeInitEvent::XtalReady(WakeStage::DeepInit(InitPass::First)));
    assert_eq!(a, WakeInitAction::CalibrateClocks(InitPass::First));
    let a = cpu_wakeup_no_deepretn_back_init(&mut g, &mut ops, InitPass::First, 0, 0xc2);
    assert_eq!(a, WakeInitAction::ReadWakeSource);
    assert_eq!(g.adc_gpio_calib_vref, 0x03f7 + 10);
    let a = wakeup_init_step(&mut g, &mut ops, WakeInitEvent::WakeSource(0x02));
    assert_eq!(a, WakeInitAction::WaitXtalReady(WakeStage::DeepInit(InitPass::Second)));
    assert_eq!(g.pm_param.is_pad_wakeup, 0);
    let a = cpu_wakeup_no_deepretn_back_init(&mut g, &mut ops, InitPass::Second, 0, 0x4000_0000);
    assert_eq!(a, WakeInitAction::ClearStackAndCalibrateFlash { pass: InitPass::Second, bit_info_1: 0, bit_info_0: 2 });
    assert_eq!(wakeup_init_step(&mut g, &mut ops, WakeInitEvent::DeepInitDone(InitPass::Second)), WakeInitAction::Done);
    let mut off = Vec::new();
    assert_eq!(cpu_wakeup_no_deepretn_back_init(&mut g, &mut off, InitPass::Second, 0x0a, 0), WakeInitAction::Halt);
    assert_eq!(off, vec![RegOp::Write8 { addr: 0x0080_006f, value: 0x20 }]);
}

#[test]
fn efuse_stack_clearing_depends_on_the_stack() {
    assert_eq!(efuse_stack_clear(0, 0, 0x0084_9123), None);
    assert_eq!(efuse_stack_clear(0, 2, 0x0084_7f00), None);
    assert_eq!(efuse_stack_clear(0, 2, 0x0084_9123), Some((0x0084_9000, 0x0084_9100)));
    assert_eq!(efuse_stack_clear(0, 3, 0x0084_9123), None);
    assert_eq!(efuse_stack_clear(1, 3, 0x0084_9123), Some((0x0084_9000, 0x0084_9100)));
}

#[test]
fn suspend_entry_sleeps_the_flash_and_patches_the_return() {
    let mut ops = Vec::new();
    startup_sleep_start_enter(&mut ops, 0x12);
    assert_eq!(ops[0], RegOp::AnalogWrite { reg: 0x34, value: 0x87 });
    assert_eq!(ops[2], RegOp::Write8 { addr: 0x0080_000c, value: 0xb9 });
    assert_eq!(ops[7], RegOp::Write32 { addr: 0x0084_1258, value: 0x06c0_06c0 });
    ops.clear();
    startup_sleep_start_leave(&mut ops, 0x12, 0xdead_beef, 200);
    assert_eq!(ops[0], RegOp::Write32 { addr: 0x0084_1258, value: 0xdead_beef });
    assert_eq!(ops[4], RegOp::Write8 { addr: 0x0080_000c, value: 0xab });
    assert_eq!(ops[8], RegOp::DelayCycles { cycles: 201 });
}
