//! System clock selection and the clock state the other drivers read.

use vstd::prelude::*;

use crate::mmio::RegOp;
use crate::regs::{AREG_FLASH_VOLTAGE, REG_CLK_SEL};

verus! {

#[derive(Clone, Copy, Debug, PartialEq, Eq, Structural)]
pub enum SysClock {
    Crystal12M,
    Crystal16M,
    Crystal24M,
    Crystal32M,
    Crystal48M,
    Rc24M,
    Rc32M,
    Rc48M,
}

/// The clock select code of each source.
pub open spec fn sys_clock_code(c: SysClock) -> u8 {
    match c {
        SysClock::Crystal12M => 0x44,
        SysClock::Crystal16M => 0x43,
        SysClock::Crystal24M => 0x42,
        SysClock::Crystal32M => 0x60,
        SysClock::Crystal48M => 0x20,
        SysClock::Rc24M => 0x00,
        SysClock::Rc32M => 0x01,
        SysClock::Rc48M => 0x02,
    }
}

pub open spec fn sys_clock_mhz(c: SysClock) -> u8 {
    match c {
        SysClock::Crystal12M => 12,
        SysClock::Crystal16M => 16,
        SysClock::Crystal24M | SysClock::Rc24M => 24,
        SysClock::Crystal32M | SysClock::Rc32M => 32,
        SysClock::Crystal48M | SysClock::Rc48M => 48,
    }
}

/// The frequency of the source with select code `code`, if it is one.
pub open spec fn code_mhz(code: u8) -> Option<u8> {
    if code == 0x44 {
        Some(12u8)
    } else if code == 0x43 {
        Some(16u8)
    } else if code == 0x42 || code == 0x00 {
        Some(24u8)
    } else if code == 0x60 || code == 0x01 {
        Some(32u8)
    } else if code == 0x20 || code == 0x02 {
        Some(48u8)
    } else {
        None
    }
}

impl SysClock {
    pub fn code(self) -> (c: u8)
        ensures
            c == sys_clock_code(self),
    {
        match self {
            SysClock::Crystal12M => 0x44,
            SysClock::Crystal16M => 0x43,
            SysClock::Crystal24M => 0x42,
            SysClock::Crystal32M => 0x60,
            SysClock::Crystal48M => 0x20,
            SysClock::Rc24M => 0x00,
            SysClock::Rc32M => 0x01,
            SysClock::Rc48M => 0x02,
        }
    }

    pub fn mhz(self) -> (m: u8)
        ensures
            m == sys_clock_mhz(self),
    {
        match self {
            SysClock::Crystal12M => 12,
            SysClock::Crystal16M => 16,
            SysClock::Crystal24M | SysClock::Rc24M => 24,
            SysClock::Crystal32M | SysClock::Rc32M => 32,
            SysClock::Crystal48M | SysClock::Rc48M => 48,
        }
    }
}

/// The selected clock: its select code and its frequency in MHz.
#[derive(Clone, Copy, Debug, PartialEq, Eq, Structural)]
pub struct ClockState {
    pub clk_type: u8,
    pub mhz: u8,
}

impl ClockState {
    /// The state at reset: the 48 MHz crystal clock.
    pub fn new() -> (s: Self)
        ensures
            s == (ClockState { clk_type: 0x20, mhz: 48 }),
    {
        ClockState { clk_type: 0x20, mhz: 48 }
    }

    /// The code of the selected clock.
    pub fn current(&self) -> (c: u8)
        ensures
            c == self.clk_type,
    {
        self.clk_type
    }

    /// The frequency of the selected clock in MHz.
    pub fn current_mhz(&self) -> (m: u8)
        ensures
            m == self.mhz,
    {
        self.mhz
    }
}

/// Selects the clock with select code `sys_clk`; an unknown code changes
/// nothing. The 48 MHz crystal also raises the flash supply.
pub fn clock_init(state: &mut ClockState, ops: &mut Vec<RegOp>, sys_clk: u8)
    ensures
        code_mhz(sys_clk) is None ==> *final(state) == *old(state) && final(ops)@ == old(ops)@,
        code_mhz(sys_clk) matches Some(m) ==> *final(state) == (ClockState { clk_type: sys_clk, mhz: m })
            && final(ops)@ == old(ops)@ + if sys_clk == 0x20 {
            seq![
                RegOp::Write8 { addr: REG_CLK_SEL, value: sys_clk },
                RegOp::AnalogWrite { reg: AREG_FLASH_VOLTAGE, value: 0xc6 },
            ]
        } else {
            seq![RegOp::Write8 { addr: REG_CLK_SEL, value: sys_clk }]
        },
{
    let ghost start = ops@;
    let mhz: u8 = if sys_clk == 0x44 {
        12
    } else if sys_clk == 0x43 {
        16
    } else if sys_clk == 0x42 || sys_clk == 0x00 {
        24
    } else if sys_clk == 0x60 || sys_clk == 0x01 {
        32
    } else if sys_clk == 0x20 || sys_clk == 0x02 {
        48
    } else {
        return;
    };
    ops.push(RegOp::Write8 { addr: REG_CLK_SEL, value: sys_clk });
    *state = ClockState { clk_type: sys_clk, mhz };
    if sys_clk == 0x20 {
        ops.push(RegOp::AnalogWrite { reg: AREG_FLASH_VOLTAGE, value: 0xc6 });
    }
    assert(ops@ =~= start + if sys_clk == 0x20 {
        seq![
            RegOp::Write8 { addr: REG_CLK_SEL, value: sys_clk },
            RegOp::AnalogWrite { reg: AREG_FLASH_VOLTAGE, value: 0xc6 },
        ]
    } else {
        seq![RegOp::Write8 { addr: REG_CLK_SEL, value: sys_clk }]
    });
}

/// Selects `clock`.
pub fn init(state: &mut ClockState, ops: &mut Vec<RegOp>, clock: SysClock)
    ensures
        *final(state) == (ClockState { clk_type: sys_clock_code(clock), mhz: sys_clock_mhz(clock) }),
        final(ops)@ == old(ops)@ + if clock == SysClock::Crystal48M {
            seq![
                RegOp::Write8 { addr: REG_CLK_SEL, value: 0x20 },
                RegOp::AnalogWrite { reg: AREG_FLASH_VOLTAGE, value: 0xc6 },
            ]
        } else {
            seq![RegOp::Write8 { addr: REG_CLK_SEL, value: sys_clock_code(clock) }]
        },
{
    clock_init(state, ops, clock.code());
}

/// Selecting a clock and reading back its frequency gives the frequency
/// the clock is named for.
pub proof fn lemma_init_sets_mhz(clock: SysClock)
    ensures
        code_mhz(sys_clock_code(clock)) == Some(sys_clock_mhz(clock)),
{
}

} // verus!
