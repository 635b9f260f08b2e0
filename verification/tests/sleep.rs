use tlsr82xx::mmio::RegOp;
use tlsr82xx::pm::{Clock32kSource, Pm, SleepMode, WakeupSource};
use tlsr82xx::sleep::{
    cpu_long_sleep_wakeup_32k_xtal, cpu_sleep_wakeup_32k_rc, step, SleepAction, SleepEvent, SleepKind, SleepPhase,
    SleepPlan,
};
use tlsr82xx::startup::PmGlobals;

const IRQ_EN: u32 = 0x0080_0643;

fn globals() -> PmGlobals {
    let mut g = PmGlobals::new();
    g.tick_32k_calib = 8000;
    g
}

#[test]
fn expired_target_reports_latched_status_and_restores_interrupts() {
    let mut g = globals();
    let mut ops = Vec::new();
    let (mut run, first) = cpu_sleep_wakeup_32k_rc(0x80, 0x40, 100);
    assert_eq!(first, SleepAction::ReadIrqState);
    assert_eq!(step(&mut run, &mut g, &mut ops, SleepEvent::IrqState(true)), SleepAction::ReadStart);
    assert_eq!(ops, vec![RegOp::Write8 { addr: IRQ_EN, value: 0 }]);
    ops.clear();
    let a = step(&mut run, &mut g, &mut ops, SleepEvent::Start { now: 200, calib_reg: 0 });
    assert_eq!(a, SleepAction::ReadWakeStatus);
    let a = step(&mut run, &mut g, &mut ops, SleepEvent::WakeStatus(0x12));
    assert_eq!(a, SleepAction::Finish(0x02));
    assert_eq!(ops, vec![RegOp::Write8 { addr: IRQ_EN, value: 1 }]);
    assert_eq!(run.phase, SleepPhase::Done);
}

#[test]
fn before_suspend_routine_can_cancel_the_sleep() {
    let mut g = globals();
    g.func_before_suspend = 0x1234;
    let mut ops = Vec::new();
    let (mut run, _) = cpu_sleep_wakeup_32k_rc(0x00, 0x40, 0x0100_0000);
    step(&mut run, &mut g, &mut ops, SleepEvent::IrqState(false));
    let a = step(&mut run, &mut g, &mut ops, SleepEvent::Start { now: 0, calib_reg: 0 });
    assert_eq!(a, SleepAction::CallBeforeSuspend(0x1234));
    assert_eq!(g.pm_long_suspend, 0);
    ops.clear();
    let a = step(&mut run, &mut g, &mut ops, SleepEvent::Callback(0));
    assert_eq!(a, SleepAction::Finish(0x08));
    assert_eq!(ops, vec![RegOp::Write8 { addr: IRQ_EN, value: 0 }]);
}

#[test]
fn short_target_is_waited_out_by_polling() {
    let mut g = globals();
    g.early_wakeup_time_us.min = 100;
    let mut ops = Vec::new();
    let (mut run, _) = cpu_sleep_wakeup_32k_rc(0x00, 0x40, 1000);
    step(&mut run, &mut g, &mut ops, SleepEvent::IrqState(true));
    ops.clear();
    let a = step(&mut run, &mut g, &mut ops, SleepEvent::Start { now: 0, calib_reg: 0 });
    assert_eq!(a, SleepAction::PollWakeStatus);
    assert_eq!(ops, vec![RegOp::AnalogWrite { reg: 0x44, value: 0x0f }]);
    assert_eq!(step(&mut run, &mut g, &mut ops, SleepEvent::Poll { status: 0, now: 500 }), SleepAction::PollWakeStatus);
    assert_eq!(step(&mut run, &mut g, &mut ops, SleepEvent::Poll { status: 0, now: 1000 }), SleepAction::Finish(0));
}

#[test]
fn full_rc_sleep_runs_every_stage() {
    let mut g = globals();
    let mut ops = Vec::new();
    let (mut run, _) = cpu_sleep_wakeup_32k_rc(0x00, 0x40, 0x0100_0000);
    step(&mut run, &mut g, &mut ops, SleepEvent::IrqState(true));
    assert_eq!(step(&mut run, &mut g, &mut ops, SleepEvent::Start { now: 0, calib_reg: 0 }), SleepAction::ReadTicks);
    let a = step(&mut run, &mut g, &mut ops, SleepEvent::Ticks { now: 10, tick_32k: 500, clk_sel: 0x43 });
    assert_eq!(a, SleepAction::ReadWakeStatus);
    assert_eq!(g.tick_cur, 10 + 0x230);
    assert_eq!(g.tick_32k_cur, 500);
    assert!(ops.contains(&RegOp::Write8 { addr: 0x0080_074c, value: 0x2c }));
    assert_eq!(step(&mut run, &mut g, &mut ops, SleepEvent::WakeStatus(0)), SleepAction::SleepStart);
    assert_eq!(step(&mut run, &mut g, &mut ops, SleepEvent::Done), SleepAction::Read32kTick);
    assert_eq!(step(&mut run, &mut g, &mut ops, SleepEvent::Tick32k(516)), SleepAction::WaitXtalReady);
    assert_eq!(g.tick_cur, 10 + 0x230 + 16 * 8000 / 16);
    ops.clear();
    assert_eq!(step(&mut run, &mut g, &mut ops, SleepEvent::Done), SleepAction::ReadWakeStatus);
    assert_eq!(ops, vec![RegOp::Write8 { addr: 0x0080_0066, value: 0x43 }]);
    ops.clear();
    let a = step(&mut run, &mut g, &mut ops, SleepEvent::WakeStatus(0x02));
    assert_eq!(a, SleepAction::Finish(0x4000_0002));
    assert_eq!(ops, vec![RegOp::Write8 { addr: IRQ_EN, value: 1 }]);
}

#[test]
fn long_sleep_shorter_than_64_ticks_busy_waits() {
    let mut g = globals();
    let mut ops = Vec::new();
    let (mut run, _) = cpu_long_sleep_wakeup_32k_xtal(0x00, 0x40, 10);
    assert_eq!(run.kind, SleepKind::LongXtal);
    step(&mut run, &mut g, &mut ops, SleepEvent::IrqState(true));
    let a = step(&mut run, &mut g, &mut ops, SleepEvent::Start { now: 0, calib_reg: 0 });
    assert_eq!(a, SleepAction::PollWakeStatus);
    assert_eq!(run.phase, SleepPhase::ShortWait { start: 0, budget: 4882 });
}

#[test]
fn pm_picks_the_routine_for_the_mode_and_clock() {
    let mut g = globals();
    g.sys_timer_per_us = 16;
    let mut ops = Vec::new();
    let mut pm = Pm::init(&mut g, &mut ops, tlsr82xx::pm::Config::internal_rc());
    let p = pm.sleep_until_tick(&mut g, SleepMode::Suspend, WakeupSource::timer(), 16_000, 0, 0);
    assert_eq!(p, SleepPlan::Stall { mask: 2, interval_us: 1000, ticks_per_us: 16 });
    let p = pm.sleep_until_tick(&mut g, SleepMode::DeepSleep, WakeupSource::timer(), 16_000, 5, 7);
    match p {
        SleepPlan::Run(run) => {
            assert_eq!(run.kind, SleepKind::Rc);
            assert_eq!(run.mode_byte, 0x80);
            assert_eq!(run.arg, 16_000);
        },
        _ => panic!("expected a timed sleep"),
    }
    assert_eq!(g.tick_cur, 5);
    assert_eq!(g.tick_32k_cur, 7);
    let p = pm.sleep_until_wakeup(&mut g, SleepMode::DeepSleep, WakeupSource::timer(), 0, 0);
    assert_eq!(p, SleepPlan::Refused(0x100));
    let p = pm.long_sleep_32k(&g, SleepMode::DeepSleep, WakeupSource::pad(), 0);
    match p {
        SleepPlan::Run(run) => {
            assert_eq!(run.kind, SleepKind::LongRc);
            assert_eq!(run.arg, 1);
        },
        _ => panic!("expected a long sleep"),
    }
    assert_eq!(g.clock_32k_source, Clock32kSource::InternalRc);
}
