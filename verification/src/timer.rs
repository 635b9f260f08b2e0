//! System timer arithmetic: elapsed-time tests on the free-running 16 MHz
//! tick counter, which wraps around.

use vstd::prelude::*;

use crate::interrupt::{acknowledge_irq, acknowledge_ops, Irq};
use crate::mmio::RegOp;
use crate::regs::{
    REG_IRQ_MASK, REG_SYSTEM_TICK_CTRL, REG_SYSTEM_TICK_IRQ, REG_SYSTEM_TICK_MODE, REG_TMR0_CAPT, REG_TMR0_TICK,
    REG_TMR_CTRL, REG_TMR_STA,
};

verus! {

/// System timer ticks per microsecond.
pub const SYS_TICK_PER_US: u32 = 16;

/// Ticks from `reference` to `now` on the wrapping 32-bit counter.
pub open spec fn elapsed(now: u32, reference: u32) -> int {
    (now as int - reference as int) % 0x1_0000_0000
}

/// Whether more than `ticks` ticks have passed between `reference` and `now`.
pub fn clock_time_exceed_ticks(now: u32, reference: u32, ticks: u32) -> (b: bool)
    ensures
        b == (elapsed(now, reference) > ticks),
{
    now.wrapping_sub(reference) > ticks
}

/// Whether more than `microseconds` have passed between `reference` and
/// `now` (the bound is taken in ticks, modulo 2^32).
pub fn clock_time_exceed_us(now: u32, reference: u32, microseconds: u32) -> (b: bool)
    ensures
        b == (elapsed(now, reference) > (microseconds as int * 16) % 0x1_0000_0000),
{
    clock_time_exceed_ticks(now, reference, microseconds.wrapping_mul(SYS_TICK_PER_US))
}

/// The phase of a periodic interrupt after `count` interrupts: true on odd
/// counts.
pub fn irq_phase(count: u32) -> (b: bool)
    ensures
        b == (count % 2 == 1),
{
    count % 2 == 1
}

/// The phase of the timer 0 periodic interrupt after `count` interrupts.
pub fn timer0_irq_phase(count: u32) -> (b: bool)
    ensures
        b == (count % 2 == 1),
{
    irq_phase(count)
}

/// The phase of the system timer periodic interrupt after `count` interrupts.
pub fn system_timer_irq_phase(count: u32) -> (b: bool)
    ensures
        b == (count % 2 == 1),
{
    irq_phase(count)
}

pub const FLD_SYSTEM_IRQ_MASK: u8 = 0x02;
pub const FLD_SYSTEM_TICK_START: u8 = 0x01;
pub const FLD_SYSTEM_TICK_STOP: u8 = 0x02;
pub const FLD_TMR0_EN: u32 = 0x01;
pub const FLD_TMR0_MODE: u32 = 0x06;
pub const FLD_IRQ_SYSTEM_TIMER: u32 = 0x0010_0000;

/// The bookkeeping of a periodic timer interrupt: whether it is set up, its
/// period, how often it fired, and the handler (an address) to call.
#[derive(Clone, Copy, Debug, PartialEq, Eq, Structural)]
pub struct PeriodicIrq {
    pub enabled: bool,
    pub period_ticks: u32,
    pub count: u32,
    pub callback: Option<usize>,
}

impl PeriodicIrq {
    /// Not set up, never fired, no handler.
    pub fn new() -> (p: Self)
        ensures
            p == (PeriodicIrq { enabled: false, period_ticks: 0, count: 0, callback: None }),
    {
        PeriodicIrq { enabled: false, period_ticks: 0, count: 0, callback: None }
    }

    /// Set up with `period_ticks` and the count back at zero; the handler
    /// stays.
    pub fn start(&mut self, period_ticks: u32)
        ensures
            *final(self) == (PeriodicIrq { enabled: true, period_ticks, count: 0, ..*old(self) }),
    {
        self.enabled = true;
        self.period_ticks = period_ticks;
        self.count = 0;
    }

    /// One more interrupt (the count wraps).
    pub fn fired(&mut self)
        ensures
            *final(self) == (PeriodicIrq { count: old(self).count.wrapping_add(1), ..*old(self) }),
    {
        self.count = self.count.wrapping_add(1);
    }

    /// One more interrupt, and the handler to call for it.
    pub fn tick(&mut self) -> (cb: Option<usize>)
        ensures
            cb == old(self).callback,
            *final(self) == (PeriodicIrq { count: old(self).count.wrapping_add(1), ..*old(self) }),
    {
        self.fired();
        self.callback
    }
}

/// Arms the system timer compare at `tick` (the low three bits are cleared).
pub fn set_system_timer_irq_capture(ops: &mut Vec<RegOp>, tick: u32)
    ensures
        final(ops)@ == old(ops)@.push(RegOp::Write32 { addr: REG_SYSTEM_TICK_IRQ, value: tick & !7u32 }),
{
    ops.push(RegOp::Write32 { addr: REG_SYSTEM_TICK_IRQ, value: tick & !7u32 });
}

pub fn clear_system_timer_irq_status(ops: &mut Vec<RegOp>)
    ensures
        final(ops)@ == old(ops)@ + acknowledge_ops(Irq::SystemTimer),
{
    acknowledge_irq(ops, Irq::SystemTimer);
}

pub fn start_system_timer(ops: &mut Vec<RegOp>)
    ensures
        final(ops)@ == old(ops)@.push(RegOp::Write8 { addr: REG_SYSTEM_TICK_CTRL, value: FLD_SYSTEM_TICK_START }),
{
    ops.push(RegOp::Write8 { addr: REG_SYSTEM_TICK_CTRL, value: FLD_SYSTEM_TICK_START });
}

pub fn stop_system_timer(ops: &mut Vec<RegOp>)
    ensures
        final(ops)@ == old(ops)@.push(RegOp::Write8 { addr: REG_SYSTEM_TICK_CTRL, value: FLD_SYSTEM_TICK_STOP }),
{
    ops.push(RegOp::Write8 { addr: REG_SYSTEM_TICK_CTRL, value: FLD_SYSTEM_TICK_STOP });
}

/// The writes that unmask the system timer interrupt in the interrupt
/// controller and in the timer.
pub open spec fn system_timer_irq_ops(on: bool) -> Seq<RegOp> {
    if on {
        seq![
            RegOp::Modify32 { addr: REG_IRQ_MASK, clear: 0, set: FLD_IRQ_SYSTEM_TIMER },
            RegOp::Modify8 { addr: REG_SYSTEM_TICK_MODE, clear: 0, set: FLD_SYSTEM_IRQ_MASK },
        ]
    } else {
        seq![
            RegOp::Modify32 { addr: REG_IRQ_MASK, clear: FLD_IRQ_SYSTEM_TIMER, set: 0 },
            RegOp::Modify8 { addr: REG_SYSTEM_TICK_MODE, clear: FLD_SYSTEM_IRQ_MASK, set: 0 },
        ]
    }
}

pub fn enable_system_timer_irq(ops: &mut Vec<RegOp>)
    ensures
        final(ops)@ == old(ops)@ + system_timer_irq_ops(true),
{
    let ghost start = ops@;
    ops.push(RegOp::Modify32 { addr: REG_IRQ_MASK, clear: 0, set: FLD_IRQ_SYSTEM_TIMER });
    ops.push(RegOp::Modify8 { addr: REG_SYSTEM_TICK_MODE, clear: 0, set: FLD_SYSTEM_IRQ_MASK });
    assert(ops@ =~= start + system_timer_irq_ops(true));
}

pub fn disable_system_timer_irq(ops: &mut Vec<RegOp>)
    ensures
        final(ops)@ == old(ops)@ + system_timer_irq_ops(false),
{
    let ghost start = ops@;
    ops.push(RegOp::Modify32 { addr: REG_IRQ_MASK, clear: FLD_IRQ_SYSTEM_TIMER, set: 0 });
    ops.push(RegOp::Modify8 { addr: REG_SYSTEM_TICK_MODE, clear: FLD_SYSTEM_IRQ_MASK, set: 0 });
    assert(ops@ =~= start + system_timer_irq_ops(false));
}

/// The writes that start a periodic system timer interrupt: pending flag
/// cleared, compare one period after `now` (low three bits cleared),
/// interrupt unmasked.
pub open spec fn system_timer_periodic_ops(now: u32, period_ticks: u32) -> Seq<RegOp> {
    acknowledge_ops(Irq::SystemTimer) + seq![
        RegOp::Write32 { addr: REG_SYSTEM_TICK_IRQ, value: now.wrapping_add(period_ticks) & !7u32 },
    ] + system_timer_irq_ops(true)
}

/// Starts a periodic system timer interrupt every `period_ticks`, reading
/// the counter as `now`.
pub fn configure_system_timer_periodic_irq(irq: &mut PeriodicIrq, ops: &mut Vec<RegOp>, now: u32, period_ticks: u32)
    ensures
        *final(irq) == (PeriodicIrq { enabled: true, period_ticks, count: 0, ..*old(irq) }),
        final(ops)@ == old(ops)@ + system_timer_periodic_ops(now, period_ticks),
{
    let ghost start = ops@;
    let first_compare = now.wrapping_add(period_ticks) & !7u32;
    irq.start(period_ticks);
    clear_system_timer_irq_status(ops);
    set_system_timer_irq_capture(ops, first_compare);
    assert(first_compare & !7u32 == first_compare) by (bit_vector)
        requires
            first_compare == now.wrapping_add(period_ticks) & !7u32,
    ;
    enable_system_timer_irq(ops);
    assert(ops@ =~= start + system_timer_periodic_ops(now, period_ticks));
}

pub fn system_timer_periodic_irq_enabled(irq: &PeriodicIrq) -> (b: bool)
    ensures
        b == irq.enabled,
{
    irq.enabled
}

pub fn system_timer_periodic_irq_fired(irq: &mut PeriodicIrq)
    ensures
        *final(irq) == (PeriodicIrq { count: old(irq).count.wrapping_add(1), ..*old(irq) }),
{
    irq.fired();
}

/// The system timer interrupt: counts it and names the handler to call.
pub fn tlsr82xx_system_timer_irq_tick(irq: &mut PeriodicIrq) -> (cb: Option<usize>)
    ensures
        cb == old(irq).callback,
        *final(irq) == (PeriodicIrq { count: old(irq).count.wrapping_add(1), ..*old(irq) }),
{
    irq.tick()
}

pub fn system_timer_irq_count(irq: &PeriodicIrq) -> (n: u32)
    ensures
        n == irq.count,
{
    irq.count
}

pub fn register_system_timer_irq_callback(irq: &mut PeriodicIrq, callback: usize)
    ensures
        *final(irq) == (PeriodicIrq { callback: Some(callback), ..*old(irq) }),
{
    irq.callback = Some(callback);
}

pub fn unregister_system_timer_irq_callback(irq: &mut PeriodicIrq)
    ensures
        *final(irq) == (PeriodicIrq { callback: None, ..*old(irq) }),
{
    irq.callback = None;
}

pub fn set_timer0_tick(ops: &mut Vec<RegOp>, tick: u32)
    ensures
        final(ops)@ == old(ops)@.push(RegOp::Write32 { addr: REG_TMR0_TICK, value: tick }),
{
    ops.push(RegOp::Write32 { addr: REG_TMR0_TICK, value: tick });
}

pub fn set_timer0_irq_capture(ops: &mut Vec<RegOp>, tick: u32)
    ensures
        final(ops)@ == old(ops)@.push(RegOp::Write32 { addr: REG_TMR0_CAPT, value: tick }),
{
    ops.push(RegOp::Write32 { addr: REG_TMR0_CAPT, value: tick });
}

/// Clears the pending flag and runs timer 0 from the system clock.
pub fn set_timer0_mode_sysclk(ops: &mut Vec<RegOp>)
    ensures
        final(ops)@ == old(ops)@ + seq![
            RegOp::Write8 { addr: REG_TMR_STA, value: 1 },
            RegOp::Modify32 { addr: REG_TMR_CTRL, clear: FLD_TMR0_MODE, set: FLD_TMR0_EN },
        ],
{
    let ghost start = ops@;
    ops.push(RegOp::Write8 { addr: REG_TMR_STA, value: 1 });
    ops.push(RegOp::Modify32 { addr: REG_TMR_CTRL, clear: FLD_TMR0_MODE, set: FLD_TMR0_EN });
    assert(ops@ =~= start + seq![
        RegOp::Write8 { addr: REG_TMR_STA, value: 1 },
        RegOp::Modify32 { addr: REG_TMR_CTRL, clear: FLD_TMR0_MODE, set: FLD_TMR0_EN },
    ]);
}

pub fn enable_timer0(ops: &mut Vec<RegOp>)
    ensures
        final(ops)@ == old(ops)@.push(RegOp::Modify32 { addr: REG_TMR_CTRL, clear: 0, set: FLD_TMR0_EN }),
{
    ops.push(RegOp::Modify32 { addr: REG_TMR_CTRL, clear: 0, set: FLD_TMR0_EN });
}

pub fn disable_timer0(ops: &mut Vec<RegOp>)
    ensures
        final(ops)@ == old(ops)@.push(RegOp::Modify32 { addr: REG_TMR_CTRL, clear: FLD_TMR0_EN, set: 0 }),
{
    ops.push(RegOp::Modify32 { addr: REG_TMR_CTRL, clear: FLD_TMR0_EN, set: 0 });
}

pub fn clear_timer0_status(ops: &mut Vec<RegOp>)
    ensures
        final(ops)@ == old(ops)@.push(RegOp::Write8 { addr: REG_TMR_STA, value: 1 }),
{
    ops.push(RegOp::Write8 { addr: REG_TMR_STA, value: 1 });
}

/// Whether timer 0 has fired, from the timer status register.
pub fn is_timer0_pending(status: u8) -> (b: bool)
    ensures
        b == (status & 1 != 0),
{
    status & 1 != 0
}

/// The writes that restart timer 0 for one period: count from zero, compare
/// at the period, run.
pub open spec fn timer0_rearm_ops(period_ticks: u32) -> Seq<RegOp> {
    seq![
        RegOp::Write32 { addr: REG_TMR0_TICK, value: 0 },
        RegOp::Write32 { addr: REG_TMR0_CAPT, value: period_ticks },
        RegOp::Modify32 { addr: REG_TMR_CTRL, clear: 0, set: FLD_TMR0_EN },
    ]
}

/// Starts a periodic timer 0 interrupt every `period_ticks`.
pub fn configure_timer0_periodic_irq(irq: &mut PeriodicIrq, ops: &mut Vec<RegOp>, period_ticks: u32)
    ensures
        *final(irq) == (PeriodicIrq { enabled: true, period_ticks, count: 0, ..*old(irq) }),
        final(ops)@ == old(ops)@ + seq![
            RegOp::Write8 { addr: REG_TMR_STA, value: 1 },
            RegOp::Write8 { addr: REG_TMR_STA, value: 1 },
            RegOp::Modify32 { addr: REG_TMR_CTRL, clear: FLD_TMR0_MODE, set: FLD_TMR0_EN },
        ] + timer0_rearm_ops(period_ticks),
{
    let ghost start = ops@;
    irq.start(period_ticks);
    clear_timer0_status(ops);
    set_timer0_mode_sysclk(ops);
    rearm_timer0_periodic_irq(irq, ops);
    assert(ops@ =~= start + seq![
        RegOp::Write8 { addr: REG_TMR_STA, value: 1 },
        RegOp::Write8 { addr: REG_TMR_STA, value: 1 },
        RegOp::Modify32 { addr: REG_TMR_CTRL, clear: FLD_TMR0_MODE, set: FLD_TMR0_EN },
    ] + timer0_rearm_ops(period_ticks));
}

/// Restarts timer 0 for the configured period.
pub fn rearm_timer0_periodic_irq(irq: &PeriodicIrq, ops: &mut Vec<RegOp>)
    ensures
        final(ops)@ == old(ops)@ + timer0_rearm_ops(irq.period_ticks),
{
    let ghost start = ops@;
    set_timer0_tick(ops, 0);
    set_timer0_irq_capture(ops, irq.period_ticks);
    enable_timer0(ops);
    assert(ops@ =~= start + timer0_rearm_ops(irq.period_ticks));
}

pub fn timer0_periodic_irq_enabled(irq: &PeriodicIrq) -> (b: bool)
    ensures
        b == irq.enabled,
{
    irq.enabled
}

pub fn timer0_periodic_irq_fired(irq: &mut PeriodicIrq)
    ensures
        *final(irq) == (PeriodicIrq { count: old(irq).count.wrapping_add(1), ..*old(irq) }),
{
    irq.fired();
}

/// The timer 0 interrupt: counts it and names the handler to call.
pub fn tlsr82xx_timer0_irq_tick(irq: &mut PeriodicIrq) -> (cb: Option<usize>)
    ensures
        cb == old(irq).callback,
        *final(irq) == (PeriodicIrq { count: old(irq).count.wrapping_add(1), ..*old(irq) }),
{
    irq.tick()
}

pub fn timer0_irq_count(irq: &PeriodicIrq) -> (n: u32)
    ensures
        n == irq.count,
{
    irq.count
}

pub fn register_timer0_irq_callback(irq: &mut PeriodicIrq, callback: usize)
    ensures
        *final(irq) == (PeriodicIrq { callback: Some(callback), ..*old(irq) }),
{
    irq.callback = Some(callback);
}

pub fn unregister_timer0_irq_callback(irq: &mut PeriodicIrq)
    ensures
        *final(irq) == (PeriodicIrq { callback: None, ..*old(irq) }),
{
    irq.callback = None;
}

} // verus!
