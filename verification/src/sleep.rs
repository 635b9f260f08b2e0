//! The timed and long sleeps as a step machine: each step takes what the
//! hardware reported, updates the power-management globals, emits the
//! register writes, and names the next thing to read or call.

use vstd::prelude::*;

use crate::interrupt::REG_IRQ_EN;
use crate::mmio::RegOp;
use crate::pm::{
    arm_sleep_timer, comparator_wait_needed, decode_mode, early_target, long_rc_setup_ops, long_rc_short_budget,
    long_rc_sleep_calibration, long_rc_sleep_setup, long_rc_sleep_wake_tick, long_rc_wake_tick, long_sleep_calib,
    long_xtal_calib_1f, long_xtal_setup, long_xtal_short_budget, long_xtal_sleep_setup, long_xtal_sleep_wake_tick,
    long_xtal_wake_tick, mode_byte, mode_of_word, rc_calib_values, rc_early_us, rc_sleep_calibration, rc_sleep_setup,
    rc_sleep_setup_ops, rc_sleep_wake_tick, rc_tick_after_wake, rc_ticks_after_wake, rc_wake_tick, short_wait_done,
    sleep_start_tick, sleep_status, sleep_timer_ops, timer_sleep_entry_rc, timer_sleep_entry_xtal, wake44_gate_ready,
    xtal_calib_1f, xtal_early_us, xtal_sleep_calibration, xtal_sleep_setup, xtal_sleep_setup_ops,
    xtal_sleep_wake_tick, xtal_tick_after_wake, xtal_ticks_after_wake, xtal_wake_tick, SleepEntry,
    PM_WAKEUP_COMPARATOR_BITS, PM_WAKEUP_TIMER_BITS, REG_PWDN_CTRL, STATUS_ENTER_SUSPEND,
    STATUS_GPIO_ERR_NO_ENTER_PM, WAKEUP_STATUS_ALL, WAKEUP_STATUS_PAD,
};
use crate::pm::{
    long_sleep_duration, ms_to_32k, ms_wakeup_tick, sleep_for_ms_plan, sleep_ms_kind, suspend_stall_params,
    Clock32kSource, Pm, SleepForMsPlan, SleepMode, SleepMsKind, SleepRequest, WakeupSource, PM_NORMAL_SLEEP_MAX_MS,
};
use crate::startup::PmGlobals;

verus! {

/// Which sleep routine runs: a sleep until a system tick, timed by the RC
/// oscillator or the crystal, or a sleep of a number of 32 kHz ticks.
#[derive(Clone, Copy, Debug, PartialEq, Eq, Structural)]
pub enum SleepKind {
    Rc,
    Xtal,
    LongRc,
    LongXtal,
}

/// Where a sleep stands, that is, which report it waits for.
#[derive(Clone, Copy, Debug, PartialEq, Eq, Structural)]
pub enum SleepPhase {
    /// Waits for the interrupt enable as it was.
    Begin,
    /// Waits for the start tick (and the sleep timer calibration).
    Entry,
    /// The target already passed: waits for the wake status to report.
    Expired,
    /// Too short to sleep: polls the wake status until `budget` ticks after
    /// `start`.
    ShortWait { start: u32, budget: u32 },
    /// Waits for the before-suspend routine's result.
    BeforeSuspend,
    /// Waits for the system tick, 32 kHz tick and clock select.
    Ticks,
    /// Waits for the system tick after the setup (long sleeps).
    Arm,
    /// Waits for the wake status before entering sleep.
    Gate,
    /// Waits for the sleep entry routine to return.
    Started,
    /// Waits for the soft reboot routine to return.
    Rebooting,
    /// Waits for the 32 kHz tick after waking.
    Wake,
    /// Waits for the crystal to be ready.
    XtalReady,
    /// Waits for the wake status after waking.
    Status,
    /// After a comparator wake-up, waits until the wake-up tick passes.
    ComparatorWait { status: u8 },
    /// Over.
    Done,
}

/// A sleep in progress.
#[derive(Clone, Copy, Debug, PartialEq, Eq, Structural)]
pub struct SleepRun {
    pub kind: SleepKind,
    pub mode_byte: u8,
    pub wakeup_src: u8,
    /// The wake-up system tick (timed sleeps) or the duration in 32 kHz
    /// ticks (long sleeps).
    pub arg: u32,
    /// The interrupt enable to restore on the way out.
    pub irq_enabled: bool,
    /// The system tick at the start.
    pub start: u32,
    /// The 32 kHz calibration the RC sleeps use.
    pub calib: u16,
    /// The clock select register, restored after waking.
    pub clk_sel: u8,
    /// Whether a long crystal sleep takes the deep-mode steps.
    pub deep: bool,
    pub phase: SleepPhase,
}

/// What the hardware reported.
#[derive(Clone, Copy, Debug, PartialEq, Eq, Structural)]
pub enum SleepEvent {
    IrqState(bool),
    Start { now: u32, calib_reg: u16 },
    WakeStatus(u8),
    Poll { status: u8, now: u32 },
    Callback(i32),
    Ticks { now: u32, tick_32k: u32, clk_sel: u8 },
    Now(u32),
    Tick32k(u32),
    Done,
}

/// What to do next, once the register writes of the step are carried out.
#[derive(Clone, Copy, Debug, PartialEq, Eq, Structural)]
pub enum SleepAction {
    /// Read the global interrupt enable; report `IrqState`.
    ReadIrqState,
    /// Read the system tick and the 16-bit sleep timer calibration
    /// register; report `Start`.
    ReadStart,
    /// Read analog register 0x44; report `WakeStatus`.
    ReadWakeStatus,
    /// Read analog register 0x44 and the system tick; report `Poll`.
    PollWakeStatus,
    /// Call the routine at this address; report its result as `Callback`.
    CallBeforeSuspend(usize),
    /// Read the system tick, the 32 kHz tick and the clock select register;
    /// report `Ticks`.
    ReadTicks,
    /// Read the system tick; report `Now`.
    ReadNow,
    /// Call the sleep entry routine; report `Done`.
    SleepStart,
    /// Call the 13 ms soft reboot routine; report `Done`.
    SoftReboot,
    /// Read the 32 kHz tick; report `Tick32k`.
    Read32kTick,
    /// Wait for the crystal; report `Done`.
    WaitXtalReady,
    /// The sleep is over with this result.
    Finish(i32),
}

/// The report each phase waits for.
pub open spec fn accepts(phase: SleepPhase, ev: SleepEvent) -> bool {
    match phase {
        SleepPhase::Begin => ev is IrqState,
        SleepPhase::Entry => ev is Start,
        SleepPhase::Expired | SleepPhase::Gate | SleepPhase::Status => ev is WakeStatus,
        SleepPhase::ShortWait { .. } => ev is Poll,
        SleepPhase::BeforeSuspend => ev is Callback,
        SleepPhase::Ticks => ev is Ticks,
        SleepPhase::Arm | SleepPhase::ComparatorWait { .. } => ev is Now,
        SleepPhase::Started | SleepPhase::Rebooting | SleepPhase::XtalReady => ev is Done,
        SleepPhase::Wake => ev is Tick32k,
        SleepPhase::Done => false,
    }
}

/// The outcome of one step.
pub struct Transition {
    pub run: SleepRun,
    pub g: PmGlobals,
    pub ops: Seq<RegOp>,
    pub action: SleepAction,
}

pub open spec fn restore_op(irq_enabled: bool) -> RegOp {
    RegOp::Write8 { addr: REG_IRQ_EN, value: if irq_enabled { 1u8 } else { 0u8 } }
}

pub open spec fn wsub(a: u32, b: u32) -> u32 {
    ((a as int - b as int) % 0x1_0000_0000) as u32
}

/// Ends the sleep: the interrupt enable restored, `result` returned.
pub open spec fn finish(run: SleepRun, g: PmGlobals, ops: Seq<RegOp>, result: i32) -> Transition {
    Transition {
        run: SleepRun { phase: SleepPhase::Done, ..run },
        g,
        ops: ops.push(restore_op(run.irq_enabled)),
        action: SleepAction::Finish(result),
    }
}

/// The before-suspend routine is called when one is registered.
pub open spec fn before_suspend(run: SleepRun, g: PmGlobals, ops: Seq<RegOp>) -> Transition {
    if g.func_before_suspend != 0 {
        Transition {
            run: SleepRun { phase: SleepPhase::BeforeSuspend, ..run },
            g,
            ops,
            action: SleepAction::CallBeforeSuspend(g.func_before_suspend),
        }
    } else {
        Transition { run: SleepRun { phase: SleepPhase::Ticks, ..run }, g, ops, action: SleepAction::ReadTicks }
    }
}

pub open spec fn timer_bit(src: u8) -> bool {
    src & PM_WAKEUP_TIMER_BITS != 0
}

/// The entry decision, from the start tick `now`.
#[verifier::opaque]
pub open spec fn on_start(run: SleepRun, g: PmGlobals, now: u32, calib_reg: u16) -> Transition {
    let run = SleepRun { start: now, ..run };
    match run.kind {
        SleepKind::Rc | SleepKind::Xtal => {
            let run = if run.kind == SleepKind::Rc { SleepRun { calib: g.tick_32k_calib, ..run } } else { run };
            if timer_bit(run.wakeup_src) {
                let dt = wsub(run.arg, now);
                let min = g.early_wakeup_time_us.min;
                if dt > 0xE000_0000 {
                    Transition {
                        run: SleepRun { phase: SleepPhase::Expired, ..run },
                        g,
                        ops: seq![restore_op(run.irq_enabled)],
                        action: SleepAction::ReadWakeStatus,
                    }
                } else if dt < min as int * 16 {
                    Transition {
                        run: SleepRun { phase: SleepPhase::ShortWait { start: now, budget: dt }, ..run },
                        g,
                        ops: seq![RegOp::AnalogWrite { reg: 0x44, value: WAKEUP_STATUS_ALL }],
                        action: SleepAction::PollWakeStatus,
                    }
                } else {
                    let long = run.kind == SleepKind::Xtal || dt > 0x0FF0_0000;
                    before_suspend(
                        run,
                        PmGlobals { pm_long_suspend: if long { 1u8 } else { 0u8 }, ..g },
                        Seq::empty(),
                    )
                }
            } else {
                before_suspend(run, g, Seq::empty())
            }
        },
        SleepKind::LongRc | SleepKind::LongXtal => {
            let calib = if calib_reg != 0 { calib_reg } else { g.tick_32k_calib };
            let (run, g) = if run.kind == SleepKind::LongRc {
                (SleepRun { calib, ..run }, PmGlobals { tick_32k_calib: calib, ..g })
            } else {
                (run, g)
            };
            if timer_bit(run.wakeup_src) && run.arg < 0x40 {
                let d = run.arg;
                let m = 0x1_0000_0000int;
                let t = (d as int * 31) % m;
                let budget: u32 = if run.kind == SleepKind::LongRc {
                    ((t * 4 % m + d) % m) as u32
                } else {
                    (((((((t * 64) % m - t) % m) * 8) % m + d) % m) / 32) as u32
                };
                Transition {
                    run: SleepRun { phase: SleepPhase::ShortWait { start: now, budget }, ..run },
                    g,
                    ops: seq![RegOp::AnalogWrite { reg: 0x44, value: WAKEUP_STATUS_ALL }],
                    action: SleepAction::PollWakeStatus,
                }
            } else {
                before_suspend(run, PmGlobals { pm_long_suspend: 0, ..g }, Seq::empty())
            }
        },
    }
}

pub open spec fn rc_calibration_ops(mode: u8, calib: u16, sr: u32) -> Seq<RegOp> {
    (if mode != 0 {
        seq![RegOp::AnalogModify { reg: 0x3c, clear: 0, set: 0x02 }]
    } else {
        Seq::empty()
    }) + seq![
        RegOp::AnalogWrite { reg: 0x20, value: rc_calib_values(calib, sr).0 },
        RegOp::AnalogWrite { reg: 0x1f, value: rc_calib_values(calib, sr).1 },
    ]
}

pub open spec fn xtal_calibration_ops(mode: u8, sr: u32) -> Seq<RegOp> {
    (if mode == 0x80 {
        seq![RegOp::AnalogModify { reg: 0x3c, clear: 0, set: 0x02 }]
    } else {
        Seq::empty()
    }) + seq![RegOp::AnalogWrite { reg: 0x20, value: 0x77 }, RegOp::AnalogWrite { reg: 0x1f, value: xtal_calib_1f(sr) }]
}

pub open spec fn long_rc_calibration_ops(mode: u8, calib: u16, sr: u32) -> Seq<RegOp> {
    (if mode == 0x80 {
        seq![RegOp::AnalogModify { reg: 0x3c, clear: 0, set: 0x02 }]
    } else {
        Seq::empty()
    }) + seq![
        RegOp::AnalogWrite { reg: 0x20, value: rc_calib_values(calib, sr).0 },
        RegOp::AnalogWrite { reg: 0x1f, value: !rc_calib_values(calib, sr).1 },
    ]
}

/// The setup once the start ticks are known.
#[verifier::opaque]
pub open spec fn on_ticks(run: SleepRun, g: PmGlobals, now: u32, tick_32k: u32, clk_sel: u8) -> Transition {
    let g = PmGlobals { tick_cur: ((now as int + 0x230) % 0x1_0000_0000) as u32, tick_32k_cur: tick_32k, ..g };
    let run = SleepRun { clk_sel, ..run };
    let sr = g.r_delay_us.suspend_ret_r_delay_us as u32;
    let long = g.pm_long_suspend != 0;
    match run.kind {
        SleepKind::Rc => {
            let early = if run.mode_byte != 0 {
                g.early_wakeup_time_us.deep_ret
            } else {
                g.early_wakeup_time_us.suspend
            };
            let target = wsub(run.arg, (early * 16) as u32);
            let wake = rc_wake_tick(target, g.tick_cur, g.tick_32k_cur, run.calib, long);
            Transition {
                run: SleepRun { phase: SleepPhase::Gate, ..run },
                g,
                ops: rc_sleep_setup_ops(run.mode_byte, run.wakeup_src, g.tl_multi_addr) + rc_calibration_ops(
                    run.mode_byte,
                    run.calib,
                    sr,
                ) + sleep_timer_ops(wake),
                action: SleepAction::ReadWakeStatus,
            }
        },
        SleepKind::Xtal => {
            let early = if run.mode_byte == 0x80 {
                g.early_wakeup_time_us.deep
            } else {
                g.early_wakeup_time_us.suspend
            };
            let target = wsub(run.arg, (early * 16) as u32);
            let wake = xtal_wake_tick(target, g.tick_cur, g.tick_32k_cur, long);
            Transition {
                run: SleepRun { phase: SleepPhase::Gate, ..run },
                g,
                ops: xtal_sleep_setup_ops(run.mode_byte, run.wakeup_src, g.tl_multi_addr) + xtal_calibration_ops(
                    run.mode_byte,
                    sr,
                ) + sleep_timer_ops(wake),
                action: SleepAction::ReadWakeStatus,
            }
        },
        SleepKind::LongRc => Transition {
            run: SleepRun { phase: SleepPhase::Arm, ..run },
            g,
            ops: long_rc_setup_ops(run.mode_byte, run.wakeup_src, g.tl_multi_addr) + long_rc_calibration_ops(
                run.mode_byte,
                run.calib,
                sr,
            ),
            action: SleepAction::ReadNow,
        },
        SleepKind::LongXtal => {
            let (setup, deep) = long_xtal_setup(run.mode_byte, run.wakeup_src, g.tl_multi_addr, run.irq_enabled);
            Transition {
                run: SleepRun { phase: SleepPhase::Arm, deep, ..run },
                g,
                ops: setup + seq![
                    RegOp::AnalogWrite { reg: 0x20, value: 0x77 },
                    RegOp::AnalogWrite { reg: 0x1f, value: ((sr * 256 + 7812) / 15625) as u8 },
                ],
                action: SleepAction::ReadNow,
            }
        },
    }
}

/// A long sleep arms the sleep timer once the setup time is known.
#[verifier::opaque]
pub open spec fn on_arm(run: SleepRun, g: PmGlobals, now: u32) -> Transition {
    let dt = wsub(now, run.start);
    let m64 = wsub(run.arg, 0x40);
    let long = g.pm_long_suspend != 0;
    let wake = if run.kind == SleepKind::LongRc {
        long_rc_wake_tick(m64, g.tick_32k_cur, dt, run.calib, long)
    } else {
        long_xtal_wake_tick(m64, g.tick_cur, dt, long)
    };
    Transition {
        run: SleepRun { phase: SleepPhase::Gate, ..run },
        g,
        ops: sleep_timer_ops(wake),
        action: SleepAction::ReadWakeStatus,
    }
}

/// Whether the sleep takes the deep-mode steps after the sleep entry.
pub open spec fn takes_deep_steps(run: SleepRun) -> bool {
    match run.kind {
        SleepKind::Rc => run.mode_byte != 0,
        SleepKind::Xtal | SleepKind::LongRc => run.mode_byte == 0x80,
        SleepKind::LongXtal => run.deep,
    }
}

/// After the sleep entry: the deep-mode steps, or straight to waking.
#[verifier::opaque]
pub open spec fn after_start(run: SleepRun, g: PmGlobals) -> Transition {
    if takes_deep_steps(run) {
        let clear: u8 = if run.kind == SleepKind::Rc || run.kind == SleepKind::LongRc { 0x02 } else { 0x03 };
        Transition {
            run: SleepRun { phase: SleepPhase::Rebooting, ..run },
            g,
            ops: seq![RegOp::AnalogModify { reg: 0x3c, clear, set: 0 }],
            action: SleepAction::SoftReboot,
        }
    } else {
        Transition {
            run: SleepRun { phase: SleepPhase::Wake, ..run },
            g,
            ops: Seq::empty(),
            action: SleepAction::Read32kTick,
        }
    }
}

/// The writes that hand the system timer back after waking.
pub open spec fn resume_timer_ops(kind: SleepKind) -> Seq<RegOp> {
    let (d1, mode, d2): (u32, u8, u32) = match kind {
        SleepKind::Rc => (6, 0x92, 4),
        SleepKind::Xtal => (7, 0x92, 4),
        SleepKind::LongRc => (6, 0x90, 4),
        SleepKind::LongXtal => (6, 0x90, 5),
    };
    seq![
        RegOp::Write8 { addr: 0x0080_074c, value: 0x00 },
        RegOp::DelayCycles { cycles: d1 },
        RegOp::Write8 { addr: 0x0080_074c, value: mode },
        RegOp::DelayCycles { cycles: d2 },
        RegOp::Write8 { addr: 0x0080_074f, value: 0x01 },
    ]
}

/// The system tick rebuilt from the 32 kHz tick read on waking.
#[verifier::opaque]
pub open spec fn on_wake(run: SleepRun, g: PmGlobals, t32: u32) -> Transition {
    let long = g.pm_long_suspend != 0;
    let (cur, cur32) = match run.kind {
        SleepKind::Rc => rc_ticks_after_wake(g.tick_cur, g.tick_32k_cur, t32, run.calib, long),
        SleepKind::LongRc => rc_ticks_after_wake(g.tick_cur, g.tick_32k_cur, t32, g.tick_32k_calib, long),
        SleepKind::Xtal | SleepKind::LongXtal => xtal_ticks_after_wake(g.tick_cur, g.tick_32k_cur, t32, long),
    };
    Transition {
        run: SleepRun { phase: SleepPhase::XtalReady, ..run },
        g: PmGlobals { tick_cur: cur, tick_32k_cur: cur32, ..g },
        ops: resume_timer_ops(run.kind),
        action: SleepAction::WaitXtalReady,
    }
}

/// The result word of a sleep that went to sleep.
pub open spec fn status_result(st: u8) -> i32 {
    if st != 0 {
        (st as u32 | STATUS_ENTER_SUSPEND) as i32
    } else {
        STATUS_GPIO_ERR_NO_ENTER_PM as i32
    }
}

/// The step of a sleep from report `ev`.
pub open spec fn sleep_next(run: SleepRun, g: PmGlobals, ev: SleepEvent) -> Transition {
    match (run.phase, ev) {
        (SleepPhase::Begin, SleepEvent::IrqState(irq_enabled)) => Transition {
            run: SleepRun { irq_enabled, phase: SleepPhase::Entry, ..run },
            g,
            ops: seq![RegOp::Write8 { addr: REG_IRQ_EN, value: 0 }],
            action: SleepAction::ReadStart,
        },
        (SleepPhase::Entry, SleepEvent::Start { now, calib_reg }) => on_start(run, g, now, calib_reg),
        (SleepPhase::Expired, SleepEvent::WakeStatus(st)) => Transition {
            run: SleepRun { phase: SleepPhase::Done, ..run },
            g,
            ops: Seq::empty(),
            action: SleepAction::Finish((st & WAKEUP_STATUS_ALL) as i32),
        },
        (SleepPhase::ShortWait { start, budget }, SleepEvent::Poll { status, now }) => {
            let st = status & WAKEUP_STATUS_ALL;
            if wsub(now, start) >= budget || st != 0 {
                finish(run, g, Seq::empty(), st as i32)
            } else {
                Transition { run, g, ops: Seq::empty(), action: SleepAction::PollWakeStatus }
            }
        },
        (SleepPhase::BeforeSuspend, SleepEvent::Callback(r)) => if r == 0 {
            finish(run, g, Seq::empty(), WAKEUP_STATUS_PAD as i32)
        } else {
            Transition {
                run: SleepRun { phase: SleepPhase::Ticks, ..run },
                g,
                ops: Seq::empty(),
                action: SleepAction::ReadTicks,
            }
        },
        (SleepPhase::Ticks, SleepEvent::Ticks { now, tick_32k, clk_sel }) => on_ticks(run, g, now, tick_32k, clk_sel),
        (SleepPhase::Arm, SleepEvent::Now(now)) => on_arm(run, g, now),
        (SleepPhase::Gate, SleepEvent::WakeStatus(st)) => if st & WAKEUP_STATUS_ALL == 0 {
            Transition {
                run: SleepRun { phase: SleepPhase::Started, ..run },
                g,
                ops: Seq::empty(),
                action: SleepAction::SleepStart,
            }
        } else {
            after_start(run, g)
        },
        (SleepPhase::Started, SleepEvent::Done) => after_start(run, g),
        (SleepPhase::Rebooting, SleepEvent::Done) => Transition {
            run: SleepRun { phase: SleepPhase::Wake, ..run },
            g,
            ops: seq![RegOp::Write8 { addr: REG_PWDN_CTRL, value: 0x20 }],
            action: SleepAction::Read32kTick,
        },
        (SleepPhase::Wake, SleepEvent::Tick32k(t32)) => on_wake(run, g, t32),
        (SleepPhase::XtalReady, SleepEvent::Done) => Transition {
            run: SleepRun { phase: SleepPhase::Status, ..run },
            g,
            ops: seq![RegOp::Write8 { addr: 0x0080_0066, value: run.clk_sel }],
            action: SleepAction::ReadWakeStatus,
        },
        (SleepPhase::Status, SleepEvent::WakeStatus(st)) => if (run.kind == SleepKind::Rc || run.kind
            == SleepKind::Xtal) && (st & PM_WAKEUP_COMPARATOR_BITS) != 0 && timer_bit(run.wakeup_src) {
            Transition {
                run: SleepRun { phase: SleepPhase::ComparatorWait { status: st }, ..run },
                g,
                ops: Seq::empty(),
                action: SleepAction::ReadNow,
            }
        } else {
            finish(run, g, Seq::empty(), status_result(st))
        },
        (SleepPhase::ComparatorWait { status }, SleepEvent::Now(now)) => if wsub(now, run.arg) <= 0x4000_0000 {
            finish(run, g, Seq::empty(), status_result(status))
        } else {
            Transition { run, g, ops: Seq::empty(), action: SleepAction::ReadNow }
        },
        _ => Transition { run, g, ops: Seq::empty(), action: SleepAction::Finish(0) },
    }
}

/// What a step needs beyond the report its phase waits for: an RC sleep
/// divides by the calibration, so the one it uses is not zero.
pub open spec fn step_ok(run: SleepRun, g: PmGlobals, ev: SleepEvent) -> bool {
    &&& accepts(run.phase, ev)
    &&& run.phase == SleepPhase::Entry && run.kind == SleepKind::Rc ==> g.tick_32k_calib != 0
    &&& (run.phase == SleepPhase::Entry && run.kind == SleepKind::LongRc) ==> (ev matches SleepEvent::Start {
        calib_reg,
        ..
    } ==> calib_reg != 0 || g.tick_32k_calib != 0)
    &&& run.phase == SleepPhase::Ticks && (run.kind == SleepKind::Rc || run.kind == SleepKind::LongRc) ==> run.calib
        != 0
    &&& run.phase == SleepPhase::Arm && run.kind == SleepKind::LongRc ==> run.calib != 0
}

/// A sleep of `kind` with mode word `mode`, wake sources `wakeup_src` and
/// argument `arg`, before its first step.
pub open spec fn new_run(kind: SleepKind, mode: u32, wakeup_src: u32, arg: u32) -> SleepRun {
    SleepRun {
        kind,
        mode_byte: mode_byte(mode_of_word(mode)),
        wakeup_src: (wakeup_src % 256) as u8,
        arg,
        irq_enabled: false,
        start: 0,
        calib: 0,
        clk_sel: 0,
        deep: false,
        phase: SleepPhase::Begin,
    }
}

fn new_sleep(kind: SleepKind, mode: u32, wakeup_src: u32, arg: u32) -> (r: (SleepRun, SleepAction))
    ensures
        r.0 == new_run(kind, mode, wakeup_src, arg),
        r.1 == SleepAction::ReadIrqState,
{
    let run = SleepRun {
        kind,
        mode_byte: decode_mode(mode).raw(),
        wakeup_src: (wakeup_src % 256) as u8,
        arg,
        irq_enabled: false,
        start: 0,
        calib: 0,
        clk_sel: 0,
        deep: false,
        phase: SleepPhase::Begin,
    };
    (run, SleepAction::ReadIrqState)
}

/// A sleep until system tick `wakeup_tick` (when the timer is a wake
/// source) timed by the RC oscillator; drive it with `step`.
pub fn cpu_sleep_wakeup_32k_rc(mode: u32, wakeup_src: u32, wakeup_tick: u32) -> (r: (SleepRun, SleepAction))
    ensures
        r.0 == new_run(SleepKind::Rc, mode, wakeup_src, wakeup_tick),
        r.1 == SleepAction::ReadIrqState,
{
    new_sleep(SleepKind::Rc, mode, wakeup_src, wakeup_tick)
}

/// The same timed by the 32.768 kHz crystal.
pub fn cpu_sleep_wakeup_32k_xtal(mode: u32, wakeup_src: u32, wakeup_tick: u32) -> (r: (SleepRun, SleepAction))
    ensures
        r.0 == new_run(SleepKind::Xtal, mode, wakeup_src, wakeup_tick),
        r.1 == SleepAction::ReadIrqState,
{
    new_sleep(SleepKind::Xtal, mode, wakeup_src, wakeup_tick)
}

/// A sleep of `wakeup_duration_ticks_32k` ticks of the RC oscillator.
pub fn pm_long_sleep_wakeup(mode: u32, wakeup_src: u32, wakeup_duration_ticks_32k: u32) -> (r: (
    SleepRun,
    SleepAction,
))
    ensures
        r.0 == new_run(SleepKind::LongRc, mode, wakeup_src, wakeup_duration_ticks_32k),
        r.1 == SleepAction::ReadIrqState,
{
    new_sleep(SleepKind::LongRc, mode, wakeup_src, wakeup_duration_ticks_32k)
}

/// A sleep of `wakeup_duration_ticks_32k` ticks of the crystal.
pub fn cpu_long_sleep_wakeup_32k_xtal(mode: u32, wakeup_src: u32, wakeup_duration_ticks_32k: u32) -> (r: (
    SleepRun,
    SleepAction,
))
    ensures
        r.0 == new_run(SleepKind::LongXtal, mode, wakeup_src, wakeup_duration_ticks_32k),
        r.1 == SleepAction::ReadIrqState,
{
    new_sleep(SleepKind::LongXtal, mode, wakeup_src, wakeup_duration_ticks_32k)
}

fn finish_exec(run: &mut SleepRun, ops: &mut Vec<RegOp>, result: i32) -> (a: SleepAction)
    ensures
        *final(run) == (SleepRun { phase: SleepPhase::Done, ..*old(run) }),
        final(ops)@ == old(ops)@.push(restore_op(old(run).irq_enabled)),
        a == SleepAction::Finish(result),
{
    crate::interrupt::restore(ops, run.irq_enabled);
    run.phase = SleepPhase::Done;
    SleepAction::Finish(result)
}

fn before_suspend_exec(run: &mut SleepRun, g: &PmGlobals) -> (a: SleepAction)
    ensures
        ({
            let t = before_suspend(*old(run), *g, Seq::empty());
            *final(run) == t.run && a == t.action
        }),
{
    if g.func_before_suspend != 0 {
        run.phase = SleepPhase::BeforeSuspend;
        SleepAction::CallBeforeSuspend(g.func_before_suspend)
    } else {
        run.phase = SleepPhase::Ticks;
        SleepAction::ReadTicks
    }
}

fn on_start_exec(run: &mut SleepRun, g: &mut PmGlobals, ops: &mut Vec<RegOp>, now: u32, calib_reg: u16) -> (a:
    SleepAction)
    ensures
        ({
            let t = on_start(*old(run), *old(g), now, calib_reg);
            *final(run) == t.run && *final(g) == t.g && final(ops)@ == old(ops)@ + t.ops && a == t.action
        }),
{
    reveal(on_start);
    let ghost start_ops = ops@;
    run.start = now;
    match run.kind {
        SleepKind::Rc | SleepKind::Xtal => {
            if run.kind == SleepKind::Rc {
                run.calib = g.tick_32k_calib;
            }
            if run.wakeup_src & PM_WAKEUP_TIMER_BITS != 0 {
                let dt = run.arg.wrapping_sub(now);
                let min = g.early_wakeup_time_us.min;
                let entry = if run.kind == SleepKind::Rc {
                    timer_sleep_entry_rc(dt, min)
                } else {
                    timer_sleep_entry_xtal(dt, min)
                };
                match entry {
                    SleepEntry::Expired => {
                        crate::interrupt::restore(ops, run.irq_enabled);
                        run.phase = SleepPhase::Expired;
                        assert(ops@ =~= start_ops + seq![restore_op(run.irq_enabled)]);
                        SleepAction::ReadWakeStatus
                    },
                    SleepEntry::BusyWait => {
                        ops.push(RegOp::AnalogWrite { reg: 0x44, value: WAKEUP_STATUS_ALL });
                        run.phase = SleepPhase::ShortWait { start: now, budget: dt };
                        assert(ops@ =~= start_ops + seq![RegOp::AnalogWrite { reg: 0x44, value: WAKEUP_STATUS_ALL }]);
                        SleepAction::PollWakeStatus
                    },
                    SleepEntry::Enter { long_suspend } => {
                        g.pm_long_suspend = if long_suspend {
                            1
                        } else {
                            0
                        };
                        assert(ops@ =~= start_ops + Seq::empty());
                        before_suspend_exec(run, g)
                    },
                }
            } else {
                assert(ops@ =~= start_ops + Seq::empty());
                before_suspend_exec(run, g)
            }
        },
        SleepKind::LongRc | SleepKind::LongXtal => {
            if run.kind == SleepKind::LongRc {
                let calib = long_sleep_calib(g, calib_reg);
                run.calib = calib;
                g.tick_32k_calib = calib;
            }
            if run.wakeup_src & PM_WAKEUP_TIMER_BITS != 0 && run.arg < 0x40 {
                let budget = if run.kind == SleepKind::LongRc {
                    long_rc_short_budget(run.arg)
                } else {
                    long_xtal_short_budget(run.arg)
                };
                ops.push(RegOp::AnalogWrite { reg: 0x44, value: WAKEUP_STATUS_ALL });
                run.phase = SleepPhase::ShortWait { start: now, budget };
                assert(ops@ =~= start_ops + seq![RegOp::AnalogWrite { reg: 0x44, value: WAKEUP_STATUS_ALL }]);
                SleepAction::PollWakeStatus
            } else {
                g.pm_long_suspend = 0;
                assert(ops@ =~= start_ops + Seq::empty());
                before_suspend_exec(run, g)
            }
        },
    }
}

#[verifier::rlimit(40)]
fn on_ticks_exec(run: &mut SleepRun, g: &mut PmGlobals, ops: &mut Vec<RegOp>, now: u32, tick_32k: u32, clk_sel: u8) -> (a:
    SleepAction)
    requires
        (old(run).kind == SleepKind::Rc || old(run).kind == SleepKind::LongRc) ==> old(run).calib != 0,
    ensures
        ({
            let t = on_ticks(*old(run), *old(g), now, tick_32k, clk_sel);
            *final(run) == t.run && *final(g) == t.g && final(ops)@ == old(ops)@ + t.ops && a == t.action
        }),
{
    reveal(on_ticks);
    let ghost start_ops = ops@;
    g.tick_cur = sleep_start_tick(now);
    g.tick_32k_cur = tick_32k;
    run.clk_sel = clk_sel;
    let sr = g.r_delay_us.suspend_ret_r_delay_us as u32;
    let long = g.pm_long_suspend != 0;
    match run.kind {
        SleepKind::Rc => {
            let early = rc_early_us(g, run.mode_byte);
            let target = early_target(run.arg, early);
            rc_sleep_setup(ops, run.mode_byte, run.wakeup_src, g.tl_multi_addr);
            rc_sleep_calibration(ops, run.mode_byte, run.calib, sr);
            let wake = rc_sleep_wake_tick(target, g.tick_cur, g.tick_32k_cur, run.calib, long);
            arm_sleep_timer(ops, wake);
            run.phase = SleepPhase::Gate;
            assert(ops@ =~= start_ops + (rc_sleep_setup_ops(run.mode_byte, run.wakeup_src, g.tl_multi_addr)
                + rc_calibration_ops(run.mode_byte, run.calib, sr) + sleep_timer_ops(wake)));
            SleepAction::ReadWakeStatus
        },
        SleepKind::Xtal => {
            let early = xtal_early_us(g, run.mode_byte);
            let target = early_target(run.arg, early);
            xtal_sleep_setup(ops, run.mode_byte, run.wakeup_src, g.tl_multi_addr);
            xtal_sleep_calibration(ops, run.mode_byte, sr);
            let wake = xtal_sleep_wake_tick(target, g.tick_cur, g.tick_32k_cur, long);
            arm_sleep_timer(ops, wake);
            run.phase = SleepPhase::Gate;
            assert(ops@ =~= start_ops + (xtal_sleep_setup_ops(run.mode_byte, run.wakeup_src, g.tl_multi_addr)
                + xtal_calibration_ops(run.mode_byte, sr) + sleep_timer_ops(wake)));
            SleepAction::ReadWakeStatus
        },
        SleepKind::LongRc => {
            long_rc_sleep_setup(ops, run.mode_byte, run.wakeup_src, g.tl_multi_addr);
            long_rc_sleep_calibration(ops, run.mode_byte, run.calib, sr);
            run.phase = SleepPhase::Arm;
            assert(ops@ =~= start_ops + (long_rc_setup_ops(run.mode_byte, run.wakeup_src, g.tl_multi_addr)
                + long_rc_calibration_ops(run.mode_byte, run.calib, sr)));
            SleepAction::ReadNow
        },
        SleepKind::LongXtal => {
            let deep = long_xtal_sleep_setup(ops, run.mode_byte, run.wakeup_src, g.tl_multi_addr, run.irq_enabled);
            ops.push(RegOp::AnalogWrite { reg: 0x20, value: 0x77 });
            let v = long_xtal_calib_1f(sr);
            ops.push(RegOp::AnalogWrite { reg: 0x1f, value: v });
            run.deep = deep;
            run.phase = SleepPhase::Arm;
            assert(ops@ =~= start_ops + (long_xtal_setup(run.mode_byte, run.wakeup_src, g.tl_multi_addr, run.irq_enabled).0
                + seq![
                RegOp::AnalogWrite { reg: 0x20, value: 0x77 },
                RegOp::AnalogWrite { reg: 0x1f, value: ((sr * 256 + 7812) / 15625) as u8 },
            ]));
            SleepAction::ReadNow
        },
    }
}

fn on_arm_exec(run: &mut SleepRun, g: &PmGlobals, ops: &mut Vec<RegOp>, now: u32) -> (a: SleepAction)
    requires
        old(run).kind == SleepKind::LongRc ==> old(run).calib != 0,
    ensures
        ({
            let t = on_arm(*old(run), *g, now);
            *final(run) == t.run && t.g == *g && final(ops)@ == old(ops)@ + t.ops && a == t.action
        }),
{
    reveal(on_arm);
    let dt = now.wrapping_sub(run.start);
    let m64 = run.arg.wrapping_sub(0x40);
    let long = g.pm_long_suspend != 0;
    let wake = if run.kind == SleepKind::LongRc {
        long_rc_sleep_wake_tick(m64, g.tick_32k_cur, dt, run.calib, long)
    } else {
        long_xtal_sleep_wake_tick(m64, g.tick_cur, dt, long)
    };
    arm_sleep_timer(ops, wake);
    run.phase = SleepPhase::Gate;
    SleepAction::ReadWakeStatus
}

fn after_start_exec(run: &mut SleepRun, g: &PmGlobals, ops: &mut Vec<RegOp>) -> (a: SleepAction)
    ensures
        ({
            let t = after_start(*old(run), *g);
            *final(run) == t.run && t.g == *g && final(ops)@ == old(ops)@ + t.ops && a == t.action
        }),
{
    reveal(after_start);
    let ghost start_ops = ops@;
    let deep = match run.kind {
        SleepKind::Rc => run.mode_byte != 0,
        SleepKind::Xtal | SleepKind::LongRc => run.mode_byte == 0x80,
        SleepKind::LongXtal => run.deep,
    };
    if deep {
        let clear: u8 = if run.kind == SleepKind::Rc || run.kind == SleepKind::LongRc {
            0x02
        } else {
            0x03
        };
        ops.push(RegOp::AnalogModify { reg: 0x3c, clear, set: 0 });
        run.phase = SleepPhase::Rebooting;
        assert(ops@ =~= start_ops + seq![RegOp::AnalogModify { reg: 0x3c, clear, set: 0 }]);
        SleepAction::SoftReboot
    } else {
        run.phase = SleepPhase::Wake;
        assert(ops@ =~= start_ops + Seq::empty());
        SleepAction::Read32kTick
    }
}

fn on_wake_exec(run: &mut SleepRun, g: &mut PmGlobals, ops: &mut Vec<RegOp>, t32: u32) -> (a: SleepAction)
    ensures
        ({
            let t = on_wake(*old(run), *old(g), t32);
            *final(run) == t.run && *final(g) == t.g && final(ops)@ == old(ops)@ + t.ops && a == t.action
        }),
{
    reveal(on_wake);
    let ghost start_ops = ops@;
    match run.kind {
        SleepKind::Rc => rc_tick_after_wake(g, t32, run.calib),
        SleepKind::LongRc => {
            let c = g.tick_32k_calib;
            rc_tick_after_wake(g, t32, c)
        },
        SleepKind::Xtal | SleepKind::LongXtal => xtal_tick_after_wake(g, t32),
    }
    let (d1, mode, d2): (u32, u8, u32) = match run.kind {
        SleepKind::Rc => (6, 0x92, 4),
        SleepKind::Xtal => (7, 0x92, 4),
        SleepKind::LongRc => (6, 0x90, 4),
        SleepKind::LongXtal => (6, 0x90, 5),
    };
    ops.push(RegOp::Write8 { addr: 0x0080_074c, value: 0x00 });
    ops.push(RegOp::DelayCycles { cycles: d1 });
    ops.push(RegOp::Write8 { addr: 0x0080_074c, value: mode });
    ops.push(RegOp::DelayCycles { cycles: d2 });
    ops.push(RegOp::Write8 { addr: 0x0080_074f, value: 0x01 });
    run.phase = SleepPhase::XtalReady;
    assert(ops@ =~= start_ops + resume_timer_ops(run.kind));
    SleepAction::WaitXtalReady
}

/// Takes the sleep one step on from report `ev`.
#[verifier::rlimit(40)]
pub fn step(run: &mut SleepRun, g: &mut PmGlobals, ops: &mut Vec<RegOp>, ev: SleepEvent) -> (a: SleepAction)
    requires
        step_ok(*old(run), *old(g), ev),
    ensures
        ({
            let t = sleep_next(*old(run), *old(g), ev);
            *final(run) == t.run && *final(g) == t.g && final(ops)@ == old(ops)@ + t.ops && a == t.action
        }),
{
    let ghost start_ops = ops@;
    match (run.phase, ev) {
        (SleepPhase::Begin, SleepEvent::IrqState(irq_enabled)) => {
            run.irq_enabled = irq_enabled;
            crate::interrupt::disable(ops);
            run.phase = SleepPhase::Entry;
            assert(ops@ =~= start_ops + seq![RegOp::Write8 { addr: REG_IRQ_EN, value: 0 }]);
            SleepAction::ReadStart
        },
        (SleepPhase::Entry, SleepEvent::Start { now, calib_reg }) => on_start_exec(run, g, ops, now, calib_reg),
        (SleepPhase::Expired, SleepEvent::WakeStatus(st)) => {
            run.phase = SleepPhase::Done;
            assert(ops@ =~= start_ops + Seq::empty());
            SleepAction::Finish((st & WAKEUP_STATUS_ALL) as i32)
        },
        (SleepPhase::ShortWait { start, budget }, SleepEvent::Poll { status, now }) => {
            let st = status & WAKEUP_STATUS_ALL;
            if short_wait_done(now, start, budget, st) {
                let a = finish_exec(run, ops, st as i32);
                assert(ops@ =~= start_ops + Seq::empty().push(restore_op(old(run).irq_enabled)));
                a
            } else {
                assert(ops@ =~= start_ops + Seq::empty());
                SleepAction::PollWakeStatus
            }
        },
        (SleepPhase::BeforeSuspend, SleepEvent::Callback(r)) => {
            if r == 0 {
                let a = finish_exec(run, ops, WAKEUP_STATUS_PAD as i32);
                assert(ops@ =~= start_ops + Seq::empty().push(restore_op(old(run).irq_enabled)));
                a
            } else {
                run.phase = SleepPhase::Ticks;
                assert(ops@ =~= start_ops + Seq::empty());
                SleepAction::ReadTicks
            }
        },
        (SleepPhase::Ticks, SleepEvent::Ticks { now, tick_32k, clk_sel }) => on_ticks_exec(
            run,
            g,
            ops,
            now,
            tick_32k,
            clk_sel,
        ),
        (SleepPhase::Arm, SleepEvent::Now(now)) => on_arm_exec(run, g, ops, now),
        (SleepPhase::Gate, SleepEvent::WakeStatus(st)) => {
            if wake44_gate_ready(st) {
                run.phase = SleepPhase::Started;
                assert(ops@ =~= start_ops + Seq::empty());
                SleepAction::SleepStart
            } else {
                after_start_exec(run, g, ops)
            }
        },
        (SleepPhase::Started, SleepEvent::Done) => after_start_exec(run, g, ops),
        (SleepPhase::Rebooting, SleepEvent::Done) => {
            ops.push(RegOp::Write8 { addr: REG_PWDN_CTRL, value: 0x20 });
            run.phase = SleepPhase::Wake;
            assert(ops@ =~= start_ops + seq![RegOp::Write8 { addr: REG_PWDN_CTRL, value: 0x20 }]);
            SleepAction::Read32kTick
        },
        (SleepPhase::Wake, SleepEvent::Tick32k(t32)) => on_wake_exec(run, g, ops, t32),
        (SleepPhase::XtalReady, SleepEvent::Done) => {
            ops.push(RegOp::Write8 { addr: 0x0080_0066, value: run.clk_sel });
            run.phase = SleepPhase::Status;
            assert(ops@ =~= start_ops + seq![RegOp::Write8 { addr: 0x0080_0066, value: old(run).clk_sel }]);
            SleepAction::ReadWakeStatus
        },
        (SleepPhase::Status, SleepEvent::WakeStatus(st)) => {
            let timed = run.kind == SleepKind::Rc || run.kind == SleepKind::Xtal;
            if timed && comparator_wait_needed(st, run.wakeup_src & PM_WAKEUP_TIMER_BITS != 0) {
                run.phase = SleepPhase::ComparatorWait { status: st };
                assert(ops@ =~= start_ops + Seq::empty());
                SleepAction::ReadNow
            } else {
                let r = sleep_status(st);
                let a = finish_exec(run, ops, r);
                assert(ops@ =~= start_ops + Seq::empty().push(restore_op(old(run).irq_enabled)));
                a
            }
        },
        (SleepPhase::ComparatorWait { status }, SleepEvent::Now(now)) => {
            if now.wrapping_sub(run.arg) <= 0x4000_0000 {
                let r = sleep_status(status);
                let a = finish_exec(run, ops, r);
                assert(ops@ =~= start_ops + Seq::empty().push(restore_op(old(run).irq_enabled)));
                a
            } else {
                assert(ops@ =~= start_ops + Seq::empty());
                SleepAction::ReadNow
            }
        },
        _ => {
            proof {
                assert(false);
            }
            SleepAction::Finish(0)
        },
    }
}

/// Every way out of a sleep restores the interrupt enable that it found:
/// a step that ends the sleep writes the saved enable back last, except
/// when the wake-up time had already passed; then the enable is written
/// back when that is found, before the wake status is read, and the final
/// step writes nothing.
pub proof fn lemma_exit_restores_interrupts(run: SleepRun, g: PmGlobals, ev: SleepEvent)
    requires
        step_ok(run, g, ev),
        run.phase != SleepPhase::Begin,
    ensures
        sleep_next(run, g, ev).action is Finish && run.phase != SleepPhase::Expired ==> sleep_next(run, g, ev).ops.len()
            > 0 && sleep_next(run, g, ev).ops.last() == restore_op(run.irq_enabled),
        sleep_next(run, g, ev).action is Finish && run.phase == SleepPhase::Expired ==> sleep_next(run, g, ev).ops.len()
            == 0,
        sleep_next(run, g, ev).run.phase == SleepPhase::Expired && run.phase != SleepPhase::Expired ==> sleep_next(
            run,
            g,
            ev,
        ).ops == seq![restore_op(run.irq_enabled)] && sleep_next(run, g, ev).action == SleepAction::ReadWakeStatus,
        sleep_next(run, g, ev).run.irq_enabled == run.irq_enabled,
{
    reveal(on_start);
    reveal(on_ticks);
    reveal(on_arm);
    reveal(after_start);
    reveal(on_wake);
}

// ---------------------------------------------------------------------------
// Choosing the routine
// ---------------------------------------------------------------------------

/// How a sleep request is carried out.
#[derive(Clone, Copy, Debug, PartialEq, Eq, Structural)]
pub enum SleepPlan {
    /// Suspend: stall the CPU for `interval_us` microseconds (at
    /// `ticks_per_us` system ticks each), waking on timer 1 when `mask` is 2;
    /// the result is the stall's wake status with the entered-suspend flag.
    Stall { mask: u32, interval_us: u32, ticks_per_us: u32 },
    /// Drive this sleep with `step`, starting with `ReadIrqState`.
    Run(SleepRun),
    /// Not slept; this is the result.
    Refused(u32),
}

pub open spec fn stall_interval(wakeup_tick: u32, now: u32, ticks_per_us: u32) -> u32 {
    let us = wsub(wakeup_tick, now) as int / (ticks_per_us as int);
    if us < 1 { 1 } else { us as u32 }
}

/// The routine for a sleep up to `wakeup_tick` from tick `now` (and 32 kHz
/// tick `now_32k`): suspend stalls the CPU; deeper modes run the RC or
/// crystal timed sleep after recording the start ticks.
pub open spec fn until_tick_plan(
    g: PmGlobals,
    mode: SleepMode,
    src: WakeupSource,
    wakeup_tick: u32,
    now: u32,
    now_32k: u32,
) -> (PmGlobals, SleepPlan) {
    if mode == SleepMode::Suspend {
        (
            PmGlobals { pm_long_suspend: 0, ..g },
            SleepPlan::Stall {
                mask: if (src.bits() & WakeupSource::TIMER) == WakeupSource::TIMER { 2u32 } else { 0u32 },
                interval_us: stall_interval(wakeup_tick, now, g.sys_timer_per_us),
                ticks_per_us: g.sys_timer_per_us,
            },
        )
    } else {
        let kind = if g.clock_32k_source == Clock32kSource::InternalRc { SleepKind::Rc } else { SleepKind::Xtal };
        (
            PmGlobals { tick_cur: now, tick_32k_cur: now_32k, pm_long_suspend: 0, ..g },
            SleepPlan::Run(new_run(kind, mode_byte(mode) as u32, src.bits() as u32, wakeup_tick)),
        )
    }
}

/// The routine for a sleep of `duration` 32 kHz ticks (at least one).
pub open spec fn long_plan(g: PmGlobals, mode: SleepMode, src: WakeupSource, duration: u32) -> SleepPlan {
    let kind = if g.clock_32k_source == Clock32kSource::InternalRc { SleepKind::LongRc } else { SleepKind::LongXtal };
    SleepPlan::Run(new_run(kind, mode_byte(mode) as u32, src.bits() as u32, if duration < 1 { 1 } else { duration }))
}

proof fn lemma_mode_word(mode: SleepMode)
    ensures
        mode_byte(mode_of_word(mode_byte(mode) as u32)) == mode_byte(mode),
{
}

fn plan_run(kind: SleepKind, mode: SleepMode, src: WakeupSource, arg: u32) -> (p: SleepPlan)
    ensures
        p == SleepPlan::Run(new_run(kind, mode_byte(mode) as u32, src.bits() as u32, arg)),
{
    let (run, _) = new_sleep(kind, mode.raw() as u32, src.raw() as u32, arg);
    proof {
        lemma_mode_word(mode);
        assert(((src.bits() as u32) % 256) as u8 == src.bits());
    }
    SleepPlan::Run(run)
}

pub fn sleep_until_tick_impl(
    g: &mut PmGlobals,
    mode: SleepMode,
    wakeup_src: WakeupSource,
    wakeup_tick: u32,
    now: u32,
    now_32k: u32,
) -> (p: SleepPlan)
    requires
        mode == SleepMode::Suspend ==> old(g).sys_timer_per_us > 0,
    ensures
        (*final(g), p) == until_tick_plan(*old(g), mode, wakeup_src, wakeup_tick, now, now_32k),
{
    if mode.is_suspend() {
        g.set_pm_long_suspend(false);
        let tpu = g.sys_timer_per_us;
        let (mask, interval_us) = suspend_stall_params(wakeup_src, wakeup_tick, now, tpu);
        return SleepPlan::Stall { mask, interval_us, ticks_per_us: tpu };
    }
    g.set_tick_cur(now);
    g.set_tick_32k_cur(now_32k);
    g.set_pm_long_suspend(false);
    let kind = match g.clock_32k_source {
        Clock32kSource::InternalRc => SleepKind::Rc,
        Clock32kSource::ExternalCrystal => SleepKind::Xtal,
    };
    plan_run(kind, mode, wakeup_src, wakeup_tick)
}

/// A sleep until a wake source other than the timer, taken at tick `now`;
/// refused when no such source is given or the mode is suspend.
pub fn sleep_until_wakeup_impl(g: &mut PmGlobals, mode: SleepMode, wakeup_src: WakeupSource, now: u32, now_32k: u32) -> (p:
    SleepPlan)
    ensures
        ({
            let rest = wakeup_src.bits() & !WakeupSource::TIMER;
            if rest == 0 || mode == SleepMode::Suspend {
                *final(g) == *old(g) && p == SleepPlan::Refused(STATUS_GPIO_ERR_NO_ENTER_PM)
            } else {
                (*final(g), p) == until_tick_plan(*old(g), mode, WakeupSource::spec_from_bits(rest), now, now, now_32k)
            }
        }),
{
    match crate::pm::sleep_until_wakeup_sources(mode, wakeup_src) {
        None => SleepPlan::Refused(STATUS_GPIO_ERR_NO_ENTER_PM),
        Some(rest) => {
            proof {
                WakeupSource::lemma_bits_determine(rest);
            }
            sleep_until_tick_impl(g, mode, rest, now, now, now_32k)
        },
    }
}

/// A sleep of `duration_ticks_32k` 32 kHz ticks on the selected source.
pub fn long_sleep_32k_impl(g: &PmGlobals, mode: SleepMode, wakeup_src: WakeupSource, duration_ticks_32k: u32) -> (p:
    SleepPlan)
    ensures
        p == long_plan(*g, mode, wakeup_src, duration_ticks_32k),
{
    let d = long_sleep_duration(duration_ticks_32k);
    let kind = match g.clock_32k_source {
        Clock32kSource::InternalRc => SleepKind::LongRc,
        Clock32kSource::ExternalCrystal => SleepKind::LongXtal,
    };
    plan_run(kind, mode, wakeup_src, d)
}

/// The routine for a sleep of `duration_ms` from tick `now`: deep modes on
/// the crystal sleep up to a system tick, on the RC clock as a long sleep;
/// suspend stalls up to the tick.
pub open spec fn for_ms_plan(
    g: PmGlobals,
    mode: SleepMode,
    src: WakeupSource,
    duration_ms: u32,
    now: u32,
    now_32k: u32,
) -> (PmGlobals, SleepPlan) {
    let tick = ms_wakeup_tick(now, duration_ms, g.sys_timer_per_us);
    if mode != SleepMode::Suspend {
        if g.clock_32k_source == Clock32kSource::ExternalCrystal {
            (
                PmGlobals { tick_cur: now, tick_32k_cur: now_32k, pm_long_suspend: 0, ..g },
                SleepPlan::Run(new_run(SleepKind::Xtal, mode_byte(mode) as u32, src.bits() as u32, tick)),
            )
        } else {
            (g, long_plan(g, mode, src, ms_to_32k(duration_ms, g.clock_32k_source)))
        }
    } else {
        until_tick_plan(g, mode, src, tick, now, now_32k)
    }
}

pub fn sleep_for_ms_impl(
    g: &mut PmGlobals,
    mode: SleepMode,
    wakeup_src: WakeupSource,
    duration_ms: u32,
    now: u32,
    now_32k: u32,
) -> (p: SleepPlan)
    requires
        mode == SleepMode::Suspend ==> old(g).sys_timer_per_us > 0,
    ensures
        (*final(g), p) == for_ms_plan(*old(g), mode, wakeup_src, duration_ms, now, now_32k),
{
    match sleep_for_ms_plan(mode, g.clock_32k_source, duration_ms, now, g.sys_timer_per_us) {
        SleepForMsPlan::XtalUntil { wakeup_tick } => {
            g.set_tick_cur(now);
            g.set_tick_32k_cur(now_32k);
            g.set_pm_long_suspend(false);
            plan_run(SleepKind::Xtal, mode, wakeup_src, wakeup_tick)
        },
        SleepForMsPlan::Long32k { ticks_32k } => long_sleep_32k_impl(g, mode, wakeup_src, ticks_32k),
        SleepForMsPlan::UntilTick { wakeup_tick } => sleep_until_tick_impl(
            g,
            mode,
            wakeup_src,
            wakeup_tick,
            now,
            now_32k,
        ),
    }
}

impl Pm {
    /// The routine for `request`, from tick `now` (and 32 kHz tick
    /// `now_32k`).
    pub fn sleep(&mut self, g: &mut PmGlobals, request: SleepRequest, now: u32, now_32k: u32) -> (p: SleepPlan)
        requires
            request.mode == SleepMode::Suspend ==> old(g).sys_timer_per_us > 0,
        ensures
            *final(self) == *old(self),
            (*final(g), p) == until_tick_plan(*old(g), request.mode, request.wakeup_src, request.wakeup_tick, now, now_32k),
    {
        sleep_until_tick_impl(g, request.mode, request.wakeup_src, request.wakeup_tick, now, now_32k)
    }

    pub fn sleep_until_tick(
        &mut self,
        g: &mut PmGlobals,
        mode: SleepMode,
        wakeup_src: WakeupSource,
        wakeup_tick: u32,
        now: u32,
        now_32k: u32,
    ) -> (p: SleepPlan)
        requires
            mode == SleepMode::Suspend ==> old(g).sys_timer_per_us > 0,
        ensures
            *final(self) == *old(self),
            (*final(g), p) == until_tick_plan(*old(g), mode, wakeup_src, wakeup_tick, now, now_32k),
    {
        sleep_until_tick_impl(g, mode, wakeup_src, wakeup_tick, now, now_32k)
    }

    pub fn sleep_until_wakeup(
        &mut self,
        g: &mut PmGlobals,
        mode: SleepMode,
        wakeup_src: WakeupSource,
        now: u32,
        now_32k: u32,
    ) -> (p: SleepPlan)
        ensures
            *final(self) == *old(self),
            ({
                let rest = wakeup_src.bits() & !WakeupSource::TIMER;
                if rest == 0 || mode == SleepMode::Suspend {
                    *final(g) == *old(g) && p == SleepPlan::Refused(STATUS_GPIO_ERR_NO_ENTER_PM)
                } else {
                    (*final(g), p) == until_tick_plan(*old(g), mode, WakeupSource::spec_from_bits(rest), now, now, now_32k)
                }
            }),
    {
        sleep_until_wakeup_impl(g, mode, wakeup_src, now, now_32k)
    }

    pub fn sleep_ms_short(
        &mut self,
        g: &mut PmGlobals,
        mode: SleepMode,
        wakeup_src: WakeupSource,
        duration_ms: u32,
        now: u32,
        now_32k: u32,
    ) -> (p: SleepPlan)
        requires
            mode == SleepMode::Suspend ==> old(g).sys_timer_per_us > 0,
        ensures
            *final(self) == *old(self),
            (*final(g), p) == for_ms_plan(*old(g), mode, wakeup_src, duration_ms, now, now_32k),
    {
        sleep_for_ms_impl(g, mode, wakeup_src, duration_ms, now, now_32k)
    }

    pub fn long_sleep_32k(&mut self, g: &PmGlobals, mode: SleepMode, wakeup_src: WakeupSource, duration_ticks_32k: u32) -> (p:
        SleepPlan)
        ensures
            *final(self) == *old(self),
            p == long_plan(*g, mode, wakeup_src, duration_ticks_32k),
    {
        long_sleep_32k_impl(g, mode, wakeup_src, duration_ticks_32k)
    }

    /// A sleep of `duration_ms`: up to 230 s as a short sleep, longer as a
    /// 32 kHz long sleep.
    pub fn sleep_ms(
        &mut self,
        g: &mut PmGlobals,
        mode: SleepMode,
        wakeup_src: WakeupSource,
        duration_ms: u32,
        now: u32,
        now_32k: u32,
    ) -> (p: SleepPlan)
        requires
            mode == SleepMode::Suspend ==> old(g).sys_timer_per_us > 0,
        ensures
            *final(self) == *old(self),
            duration_ms <= PM_NORMAL_SLEEP_MAX_MS ==> (*final(g), p) == for_ms_plan(
                *old(g),
                mode,
                wakeup_src,
                duration_ms,
                now,
                now_32k,
            ),
            duration_ms > PM_NORMAL_SLEEP_MAX_MS ==> *final(g) == *old(g) && p == long_plan(
                *old(g),
                mode,
                wakeup_src,
                ms_to_32k(duration_ms, old(g).clock_32k_source),
            ),
    {
        match sleep_ms_kind(duration_ms) {
            SleepMsKind::Short => self.sleep_ms_short(g, mode, wakeup_src, duration_ms, now, now_32k),
            SleepMsKind::Long => {
                let ticks = crate::pm::duration_ms_to_32k_ticks(duration_ms, g.clock_32k_source);
                self.long_sleep_32k(g, mode, wakeup_src, ticks)
            },
        }
    }
}

} // verus!
