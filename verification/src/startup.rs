//! Boot and power-management globals: the state that the sleep routines
//! share (held here as a value instead of scattered statics), the wake
//! bookkeeping of the boot flow, register tables and timer stalls.

use vstd::prelude::*;
use crate::mmio::RegOp;
use crate::regs::{
    ANA_USB_DP_PULLUP, ANA_USB_POWER, AREG_CLK_SETTING, REG_CLK_EN0, REG_CLK_EN1, REG_CLK_EN2, REG_GPIO_PE_IE,
    REG_GPIO_WAKEUP_IRQ, REG_MSPI_CTRL, REG_MSPI_DATA, REG_PM_RET_BYTE, REG_PM_RET_CLR, REG_PM_RET_CTRL0,
    REG_PM_RET_CTRL1, REG_RST0, REG_RST1, REG_RST2, REG_SYSTEM_TICK, REG_SYSTEM_TICK_CTRL,
};
use crate::pm::Clock32kSource;

verus! {

#[derive(Clone, Copy, Debug, PartialEq, Eq, Structural)]
pub enum StartupState {
    Boot,
    DeepRetention,
    Deep,
}

pub const MCU_STATUS_BOOT: u8 = 0;
pub const MCU_STATUS_DEEPRET_BACK: u8 = 1;
pub const MCU_STATUS_DEEP_BACK: u8 = 2;

/// What the boot flow learned about the last wake-up.
#[derive(Clone, Copy, Debug, PartialEq, Eq, Structural)]
pub struct PmPara {
    pub is_pad_wakeup: u8,
    pub wakeup_src: u8,
    pub mcu_status: u8,
    pub _reserved: u8,
}

/// How long before the programmed tick each kind of sleep must start
/// waking, in microseconds.
#[derive(Clone, Copy, Debug, PartialEq, Eq, Structural)]
pub struct PmEarlyWakeupTimeUs {
    pub suspend: u16,
    pub deep_ret: u16,
    pub deep: u16,
    pub min: u16,
}

#[derive(Clone, Copy, Debug, PartialEq, Eq, Structural)]
pub struct PmRDelayUs {
    pub deep_r_delay_us: u16,
    pub suspend_ret_r_delay_us: u16,
}

#[derive(Clone, Copy, Debug, PartialEq, Eq, Structural)]
pub struct MiscPara {
    pub ext_cap_en: u8,
    pub pad32k_en: u8,
    pub pm_enter_en: u8,
    pub _reserved: u8,
}

/// One entry of a register initialisation table.
#[derive(Clone, Copy, Debug, PartialEq, Eq, Structural)]
pub struct TblCmdSet {
    pub adr: u16,
    pub dat: u8,
    pub cmd: u8,
}

/// Which routine a power-management hook points at.
#[derive(Clone, Copy, Debug, PartialEq, Eq, Structural)]
pub enum PmHandler {
    Unset,
    Rc32k,
    Xtal32k,
}

/// The power-management globals shared by the sleep routines.
#[derive(Clone, Copy, Debug, PartialEq, Eq, Structural)]
pub struct PmGlobals {
    pub sys_timer_per_us: u32,
    pub pm_param: PmPara,
    pub tick_32k_calib: u16,
    pub tick_cur: u32,
    pub tick_32k_cur: u32,
    pub pm_long_suspend: u8,
    pub r_delay_us: PmRDelayUs,
    pub early_wakeup_time_us: PmEarlyWakeupTimeUs,
    pub suspend_delay_us: u32,
    pub xtal_stable_loopnum: u32,
    pub xtal_stable_suspend_nopnum: u32,
    pub tim_recover: PmHandler,
    pub cpu_sleep_wakeup: PmHandler,
    pub check_32k_clk_stable: PmHandler,
    pub misc: MiscPara,
    /// The 32 kHz clock the sleep timer runs from.
    pub clock_32k_source: Clock32kSource,
    /// The tl_multi_addr byte programmed before retention sleeps.
    pub tl_multi_addr: u8,
    /// The routine (an address, 0 for none) a sleep calls before it
    /// suspends; a zero result cancels the sleep.
    pub func_before_suspend: usize,
    /// The ADC reference for GPIO inputs in millivolts (from the efuse).
    pub adc_gpio_calib_vref: u16,
}

/// The minimum early-wakeup time: 400 µs after the earlier of the deep and
/// suspend early-wakeup times.
pub open spec fn early_min(deep: u16, suspend: u16) -> u16 {
    if deep < suspend {
        ((deep + 0x0190) % 0x1_0000) as u16
    } else {
        ((suspend + 0x0190) % 0x1_0000) as u16
    }
}

/// The early-wakeup times for resume delays `r` and suspend delay
/// `suspend_delay_us`.
pub open spec fn early_times(r: PmRDelayUs, suspend_delay_us: u32) -> PmEarlyWakeupTimeUs {
    let suspend = ((r.suspend_ret_r_delay_us + 0x00e6 + suspend_delay_us) % 0x1_0000) as u16;
    let deep = ((r.deep_r_delay_us + 240) % 0x1_0000) as u16;
    PmEarlyWakeupTimeUs {
        suspend,
        deep_ret: ((r.suspend_ret_r_delay_us + 100) % 0x1_0000) as u16,
        deep,
        min: early_min(deep, suspend),
    }
}

fn early_min_of(deep: u16, suspend: u16) -> (m: u16)
    ensures
        m == early_min(deep, suspend),
{
    if deep < suspend {
        deep.wrapping_add(0x0190)
    } else {
        suspend.wrapping_add(0x0190)
    }
}

impl PmGlobals {
    /// The globals at reset.
    pub fn new() -> (g: Self)
        ensures
            g == (PmGlobals {
                sys_timer_per_us: 0,
                pm_param: PmPara { is_pad_wakeup: 0, wakeup_src: 0, mcu_status: 0, _reserved: 0 },
                tick_32k_calib: 0,
                tick_cur: 0,
                tick_32k_cur: 0,
                pm_long_suspend: 0,
                r_delay_us: PmRDelayUs { deep_r_delay_us: 0, suspend_ret_r_delay_us: 0 },
                early_wakeup_time_us: PmEarlyWakeupTimeUs { suspend: 0, deep_ret: 0, deep: 0, min: 0 },
                suspend_delay_us: 0x87,
                xtal_stable_loopnum: 10,
                xtal_stable_suspend_nopnum: 200,
                tim_recover: PmHandler::Unset,
                cpu_sleep_wakeup: PmHandler::Unset,
                check_32k_clk_stable: PmHandler::Unset,
                misc: MiscPara { ext_cap_en: 0, pad32k_en: 0, pm_enter_en: 0, _reserved: 0 },
                clock_32k_source: Clock32kSource::InternalRc,
                tl_multi_addr: 0,
                func_before_suspend: 0,
                adc_gpio_calib_vref: 1175,
            }),
    {
        PmGlobals {
            sys_timer_per_us: 0,
            pm_param: PmPara { is_pad_wakeup: 0, wakeup_src: 0, mcu_status: 0, _reserved: 0 },
            tick_32k_calib: 0,
            tick_cur: 0,
            tick_32k_cur: 0,
            pm_long_suspend: 0,
            r_delay_us: PmRDelayUs { deep_r_delay_us: 0, suspend_ret_r_delay_us: 0 },
            early_wakeup_time_us: PmEarlyWakeupTimeUs { suspend: 0, deep_ret: 0, deep: 0, min: 0 },
            suspend_delay_us: 0x87,
            xtal_stable_loopnum: 10,
            xtal_stable_suspend_nopnum: 200,
            tim_recover: PmHandler::Unset,
            cpu_sleep_wakeup: PmHandler::Unset,
            check_32k_clk_stable: PmHandler::Unset,
            misc: MiscPara { ext_cap_en: 0, pad32k_en: 0, pm_enter_en: 0, _reserved: 0 },
            clock_32k_source: Clock32kSource::InternalRc,
            tl_multi_addr: 0,
            func_before_suspend: 0,
            adc_gpio_calib_vref: 1175,
        }
    }

    /// Registers the routine a sleep calls before it suspends.
    pub fn set_func_before_suspend(&mut self, func: usize)
        ensures
            *final(self) == (PmGlobals { func_before_suspend: func, ..*old(self) }),
    {
        self.func_before_suspend = func;
    }

    /// Stores the resume delays and recomputes the early-wakeup times.
    pub fn set_wakeup_time_param(&mut self, param: PmRDelayUs)
        ensures
            *final(self) == (PmGlobals {
                r_delay_us: param,
                early_wakeup_time_us: early_times(param, old(self).suspend_delay_us),
                ..*old(self)
            }),
    {
        self.r_delay_us = param;
        let deep = param.deep_r_delay_us;
        let suspend_ret = param.suspend_ret_r_delay_us;
        let suspend = (suspend_ret as u64 + 0x00e6 + self.suspend_delay_us as u64) % 0x1_0000;
        self.early_wakeup_time_us.suspend = suspend as u16;
        self.early_wakeup_time_us.deep_ret = suspend_ret.wrapping_add(100);
        self.early_wakeup_time_us.deep = deep.wrapping_add(240);
        self.early_wakeup_time_us.min = early_min_of(self.early_wakeup_time_us.deep, self.early_wakeup_time_us.suspend);
    }

    /// Stores the crystal settle parameters and recomputes the suspend and
    /// minimum early-wakeup times.
    pub fn set_xtal_stable_timer_param(&mut self, delay_us: u32, loopnum: u32, nopnum: u32)
        ensures
            ({
                let suspend = ((old(self).r_delay_us.suspend_ret_r_delay_us + 0x00e6 + delay_us) % 0x1_0000) as u16;
                *final(self) == (PmGlobals {
                    xtal_stable_suspend_nopnum: nopnum,
                    xtal_stable_loopnum: loopnum,
                    suspend_delay_us: delay_us,
                    early_wakeup_time_us: PmEarlyWakeupTimeUs {
                        suspend,
                        min: early_min(old(self).early_wakeup_time_us.deep, suspend),
                        ..old(self).early_wakeup_time_us
                    },
                    ..*old(self)
                })
            }),
    {
        self.xtal_stable_suspend_nopnum = nopnum;
        self.xtal_stable_loopnum = loopnum;
        self.suspend_delay_us = delay_us;
        let suspend = (self.r_delay_us.suspend_ret_r_delay_us as u64 + 0x00e6 + delay_us as u64) % 0x1_0000;
        self.early_wakeup_time_us.suspend = suspend as u16;
        self.early_wakeup_time_us.min = early_min_of(self.early_wakeup_time_us.deep, self.early_wakeup_time_us.suspend);
    }

    pub fn set_tick_cur(&mut self, value: u32)
        ensures
            *final(self) == (PmGlobals { tick_cur: value, ..*old(self) }),
    {
        self.tick_cur = value;
    }

    pub fn current_tick_cur(&self) -> (v: u32)
        ensures
            v == self.tick_cur,
    {
        self.tick_cur
    }

    pub fn set_tick_32k_cur(&mut self, value: u32)
        ensures
            *final(self) == (PmGlobals { tick_32k_cur: value, ..*old(self) }),
    {
        self.tick_32k_cur = value;
    }

    pub fn current_tick_32k_cur(&self) -> (v: u32)
        ensures
            v == self.tick_32k_cur,
    {
        self.tick_32k_cur
    }

    pub fn set_tick_32k_calib(&mut self, value: u16)
        ensures
            *final(self) == (PmGlobals { tick_32k_calib: value, ..*old(self) }),
    {
        self.tick_32k_calib = value;
    }

    pub fn set_pm_long_suspend(&mut self, value: bool)
        ensures
            *final(self) == (PmGlobals { pm_long_suspend: if value { 1u8 } else { 0u8 }, ..*old(self) }),
    {
        self.pm_long_suspend = if value { 1 } else { 0 };
    }

    pub fn set_pm_tim_recover_handler(&mut self, handler: PmHandler)
        ensures
            *final(self) == (PmGlobals { tim_recover: handler, ..*old(self) }),
    {
        self.tim_recover = handler;
    }

    pub fn set_cpu_sleep_wakeup_handler(&mut self, handler: PmHandler)
        ensures
            *final(self) == (PmGlobals { cpu_sleep_wakeup: handler, ..*old(self) }),
    {
        self.cpu_sleep_wakeup = handler;
    }

    pub fn set_pm_check_32k_clk_stable_handler(&mut self, handler: PmHandler)
        ensures
            *final(self) == (PmGlobals { check_32k_clk_stable: handler, ..*old(self) }),
    {
        self.check_32k_clk_stable = handler;
    }

    pub fn set_misc_pad32k_enabled(&mut self, enabled: bool)
        ensures
            *final(self) == (PmGlobals {
                misc: MiscPara { pad32k_en: if enabled { 1u8 } else { 0u8 }, ..old(self).misc },
                ..*old(self)
            }),
    {
        self.misc.pad32k_en = if enabled { 1 } else { 0 };
    }

    pub fn set_misc_pm_enter_enabled(&mut self, enabled: bool)
        ensures
            *final(self) == (PmGlobals {
                misc: MiscPara { pm_enter_en: if enabled { 1u8 } else { 0u8 }, ..old(self).misc },
                ..*old(self)
            }),
    {
        self.misc.pm_enter_en = if enabled { 1 } else { 0 };
    }

    /// How the chip came up, from the status the boot flow recorded.
    pub fn startup_state(&self) -> (s: StartupState)
        ensures
            s == startup_state_of(self.pm_param.mcu_status),
    {
        if self.pm_param.mcu_status == MCU_STATUS_DEEPRET_BACK {
            StartupState::DeepRetention
        } else if self.pm_param.mcu_status == MCU_STATUS_DEEP_BACK {
            StartupState::Deep
        } else {
            StartupState::Boot
        }
    }

    pub fn wakeup_src_raw(&self) -> (w: u8)
        ensures
            w == self.pm_param.wakeup_src,
    {
        self.pm_param.wakeup_src
    }

    pub fn is_pad_wakeup(&self) -> (b: bool)
        ensures
            b == (self.pm_param.is_pad_wakeup != 0),
    {
        self.pm_param.is_pad_wakeup != 0
    }
}

pub open spec fn startup_state_of(mcu_status: u8) -> StartupState {
    if mcu_status == MCU_STATUS_DEEPRET_BACK {
        StartupState::DeepRetention
    } else if mcu_status == MCU_STATUS_DEEP_BACK {
        StartupState::Deep
    } else {
        StartupState::Boot
    }
}

/// Whether the retention flags describe a real wake from a saved sleep
/// mode: a known mode byte in analog 0x7e and a wake indicator (deep wake
/// flag in 0x7f bit 0, or a latched wake source in 0x44).
pub fn boot_init_has_saved_pm_mode(wake_flag: u8, wake_status: u8, pm_status: u8) -> (b: bool)
    ensures
        b == ((wake_flag == 0x80 || wake_flag == 0x61 || wake_flag == 0x43 || wake_flag == 0x07 || wake_flag == 0xff)
            && ((pm_status & 0x01) != 0 || (wake_status & 0x0f) != 0)),
{
    if !(wake_flag == 0x80 || wake_flag == 0x61 || wake_flag == 0x43 || wake_flag == 0x07 || wake_flag == 0xff) {
        return false;
    }
    (pm_status & 0x01) != 0 || (wake_status & 0x0f) != 0
}

proof fn lemma_mulsi3_step(r0: int, x0: int, y1: int, bit: int, m: int)
    requires
        m > 0,
        bit == 0 || bit == 1,
    ensures
        ((if bit == 1 { (r0 + x0) % m } else { r0 }) + ((2 * x0) % m) * y1) % m == (r0 + x0 * (2 * y1 + bit)) % m,
{
    let r1 = if bit == 1 { (r0 + x0) % m } else { r0 };
    let q = 2 * x0 * y1;
    vstd::arithmetic::div_mod::lemma_mul_mod_noop_left(2 * x0, y1, m);
    assert(((2 * x0) % m) * y1 % m == q % m);
    vstd::arithmetic::div_mod::lemma_add_mod_noop_right(r1, ((2 * x0) % m) * y1, m);
    vstd::arithmetic::div_mod::lemma_add_mod_noop_right(r1, q, m);
    assert((r1 + ((2 * x0) % m) * y1) % m == (r1 + q) % m);
    assert(x0 * (2 * y1 + bit) == q + x0 * bit) by (nonlinear_arith)
        requires
            q == 2 * x0 * y1,
    ;
    if bit == 1 {
        vstd::arithmetic::div_mod::lemma_add_mod_noop(r0 + x0, q, m);
        vstd::arithmetic::div_mod::lemma_add_mod_noop_right((r0 + x0) % m, q, m);
        vstd::arithmetic::div_mod::lemma_mod_twice(r0 + x0, m);
        vstd::arithmetic::div_mod::lemma_add_mod_noop(r0 + x0, q, m);
        assert(((r0 + x0) % m + q) % m == (r0 + x0 + q) % m) by {
            vstd::arithmetic::div_mod::lemma_add_mod_noop((r0 + x0) % m, q, m);
            vstd::arithmetic::div_mod::lemma_mod_twice(r0 + x0, m);
        }
    } else {
        assert(x0 * bit == 0);
    }
}

/// 32-bit multiplication by shift and add, as the compiler runtime needs it.
pub fn mulsi3(a: u32, b: u32) -> (r: u32)
    ensures
        r == (a as int * b as int) % 0x1_0000_0000,
{
    let mut result: u32 = 0;
    let mut x: u32 = a;
    let mut y: u32 = b;
    while y != 0
        invariant
            (result as int + x as int * y as int) % 0x1_0000_0000 == (a as int * b as int) % 0x1_0000_0000,
        decreases y,
    {
        let ghost (r0, x0, y0) = (result as int, x as int, y as int);
        let bit: u32 = y & 1;
        if bit != 0 {
            result = result.wrapping_add(x);
        }
        let nx = x << 1u32;
        let ny = y >> 1u32;
        assert(bit == y % 2 && nx == (x as int * 2) % 0x1_0000_0000 && ny == y / 2) by (bit_vector)
            requires
                bit == y & 1,
                nx == x << 1u32,
                ny == y >> 1u32,
        ;
        proof {
            lemma_mulsi3_step(r0, x0, y0 / 2, bit as int, 0x1_0000_0000);
            assert(y0 == 2 * (y0 / 2) + bit);
            assert(result == (if bit == 1 { (r0 + x0) % 0x1_0000_0000 } else { r0 }));
        }
        x = nx;
        y = ny;
    }
    assert(result as int % 0x1_0000_0000 == result);
    result
}

pub const TCMD_UNDER_WR: u8 = 0x40;
pub const TCMD_MASK: u8 = 0x3f;
pub const TCMD_WRITE: u8 = 0x03;
pub const TCMD_WAIT: u8 = 0x07;
pub const TCMD_WAREG: u8 = 0x08;

/// The action of one table entry: a register write, an analog register
/// write, a wait, or nothing (no write flag or an unknown command).
pub open spec fn tbl_entry_ops(e: TblCmdSet) -> Seq<RegOp> {
    if (e.cmd & TCMD_UNDER_WR) == 0 {
        Seq::empty()
    } else if (e.cmd & TCMD_MASK) == TCMD_WRITE {
        seq![RegOp::Write8 { addr: (0x0080_0000 + e.adr) as u32, value: e.dat }]
    } else if (e.cmd & TCMD_MASK) == TCMD_WAREG {
        seq![RegOp::AnalogWrite { reg: (e.adr % 256) as u8, value: e.dat }]
    } else if (e.cmd & TCMD_MASK) == TCMD_WAIT {
        seq![RegOp::DelayUs { us: (e.adr * 256 + e.dat) as u32 }]
    } else {
        Seq::empty()
    }
}

pub open spec fn tbl_ops(t: Seq<TblCmdSet>) -> Seq<RegOp>
    decreases t.len(),
{
    if t.len() == 0 {
        Seq::empty()
    } else {
        tbl_ops(t.drop_last()) + tbl_entry_ops(t.last())
    }
}

/// Runs a register table; returns the number of entries (0 when `size` is
/// not positive).
#[allow(non_snake_case)]
pub fn LoadTblCmdSet(ops: &mut Vec<RegOp>, table: &[TblCmdSet], size: i32) -> (n: i32)
    requires
        size <= table@.len(),
    ensures
        size <= 0 ==> n == 0 && final(ops)@ == old(ops)@,
        size > 0 ==> n == size && final(ops)@ == old(ops)@ + tbl_ops(table@.take(size as int)),
{
    if size <= 0 {
        return 0;
    }
    let ghost start = ops@;
    let mut i: i32 = 0;
    while i < size
        invariant
            0 <= i <= size,
            size <= table@.len(),
            ops@ == start + tbl_ops(table@.take(i as int)),
        decreases size - i,
    {
        let entry = table[i as usize];
        let ghost before = ops@;
        if (entry.cmd & TCMD_UNDER_WR) != 0 {
            let c = entry.cmd & TCMD_MASK;
            if c == TCMD_WRITE {
                ops.push(RegOp::Write8 { addr: 0x0080_0000 + entry.adr as u32, value: entry.dat });
            } else if c == TCMD_WAREG {
                ops.push(RegOp::AnalogWrite { reg: (entry.adr % 256) as u8, value: entry.dat });
            } else if c == TCMD_WAIT {
                ops.push(RegOp::DelayUs { us: (entry.adr as u32) * 256 + entry.dat as u32 });
            }
        }
        assert(table@.take(i + 1).drop_last() =~= table@.take(i as int));
        assert(ops@ =~= before + tbl_entry_ops(table@[i as int]));
        i = i + 1;
    }
    size
}

/// Where the suspend routine's return instruction lies, from the value
/// `ret_hi` of `REG_SUSPEND_RET_ADDR_HI`: `ret_hi << 8 | 0x84_0058`.
pub open spec fn suspend_ret_addr(ret_hi: u8) -> u32 {
    (ret_hi as u32 * 256 + 0x0084_0058) as u32
}

pub fn startup_suspend_ret_addr(ret_hi: u8) -> (a: u32)
    ensures
        a == suspend_ret_addr(ret_hi),
        a == ((ret_hi as u32) << 8u32) | 0x0084_0058u32,
{
    let a = ((ret_hi as u32) << 8u32) | 0x0084_0058u32;
    assert(((ret_hi as u32) << 8u32) | 0x0084_0058u32 == (ret_hi as u32) * 256 + 0x0084_0058) by (bit_vector);
    a
}

/// The instruction patched over the return of the suspend routine.
pub const SUSPEND_RET_PATCH: u32 = 0x06c0_06c0;

/// Before the suspend routine: the analog power switch, the flash put in
/// deep power-down, the GPIO input enables of port E off, the clocks slowed,
/// and the return instruction patched.
pub open spec fn sleep_start_enter_ops(ret_hi: u8) -> Seq<RegOp> {
    seq![
        RegOp::AnalogWrite { reg: 0x34, value: 0x87 },
        RegOp::Write8 { addr: REG_MSPI_CTRL, value: 0 },
        RegOp::Write8 { addr: REG_MSPI_DATA, value: 0xb9 },
        RegOp::DelayCycles { cycles: 2 },
        RegOp::Write8 { addr: REG_MSPI_CTRL, value: 1 },
        RegOp::Write8 { addr: REG_GPIO_PE_IE, value: 0 },
        RegOp::AnalogWrite { reg: AREG_CLK_SETTING, value: 0x0c },
        RegOp::Write32 { addr: suspend_ret_addr(ret_hi), value: SUSPEND_RET_PATCH },
    ]
}

/// After the suspend routine: the return instruction `saved` put back, the
/// clocks and port E input enables restored, the flash woken, the analog
/// power switch back, and `nopnum + 1` cycles for the crystal.
pub open spec fn sleep_start_leave_ops(ret_hi: u8, saved: u32, nopnum: u32) -> Seq<RegOp> {
    seq![
        RegOp::Write32 { addr: suspend_ret_addr(ret_hi), value: saved },
        RegOp::AnalogWrite { reg: AREG_CLK_SETTING, value: 0x64 },
        RegOp::Write8 { addr: REG_GPIO_PE_IE, value: 0x0f },
        RegOp::Write8 { addr: REG_MSPI_CTRL, value: 0 },
        RegOp::Write8 { addr: REG_MSPI_DATA, value: 0xab },
        RegOp::DelayCycles { cycles: 2 },
        RegOp::Write8 { addr: REG_MSPI_CTRL, value: 1 },
        RegOp::AnalogWrite { reg: 0x34, value: 0x80 },
        RegOp::DelayCycles { cycles: (nopnum + 1) as u32 },
    ]
}

/// The register work before the vendor suspend routine runs; `ret_hi` is
/// the value of `REG_SUSPEND_RET_ADDR_HI`.
pub fn startup_sleep_start_enter(ops: &mut Vec<RegOp>, ret_hi: u8)
    ensures
        final(ops)@ == old(ops)@ + sleep_start_enter_ops(ret_hi),
{
    let ghost start = ops@;
    let ret = startup_suspend_ret_addr(ret_hi);
    ops.push(RegOp::AnalogWrite { reg: 0x34, value: 0x87 });
    ops.push(RegOp::Write8 { addr: REG_MSPI_CTRL, value: 0 });
    ops.push(RegOp::Write8 { addr: REG_MSPI_DATA, value: 0xb9 });
    ops.push(RegOp::DelayCycles { cycles: 2 });
    ops.push(RegOp::Write8 { addr: REG_MSPI_CTRL, value: 1 });
    ops.push(RegOp::Write8 { addr: REG_GPIO_PE_IE, value: 0 });
    ops.push(RegOp::AnalogWrite { reg: AREG_CLK_SETTING, value: 0x0c });
    ops.push(RegOp::Write32 { addr: ret, value: SUSPEND_RET_PATCH });
    assert(ops@ =~= start + sleep_start_enter_ops(ret_hi));
}

/// The register work after the vendor suspend routine returned; `saved` is
/// the instruction read at the return address before it was patched, and
/// `nopnum` the crystal settling count (the wait never ends for
/// `u32::MAX`).
pub fn startup_sleep_start_leave(ops: &mut Vec<RegOp>, ret_hi: u8, saved: u32, nopnum: u32)
    requires
        nopnum < u32::MAX,
    ensures
        final(ops)@ == old(ops)@ + sleep_start_leave_ops(ret_hi, saved, nopnum),
{
    let ghost start = ops@;
    let ret = startup_suspend_ret_addr(ret_hi);
    ops.push(RegOp::Write32 { addr: ret, value: saved });
    ops.push(RegOp::AnalogWrite { reg: AREG_CLK_SETTING, value: 0x64 });
    ops.push(RegOp::Write8 { addr: REG_GPIO_PE_IE, value: 0x0f });
    ops.push(RegOp::Write8 { addr: REG_MSPI_CTRL, value: 0 });
    ops.push(RegOp::Write8 { addr: REG_MSPI_DATA, value: 0xab });
    ops.push(RegOp::DelayCycles { cycles: 2 });
    ops.push(RegOp::Write8 { addr: REG_MSPI_CTRL, value: 1 });
    ops.push(RegOp::AnalogWrite { reg: 0x34, value: 0x80 });
    ops.push(RegOp::DelayCycles { cycles: nopnum + 1 });
    assert(ops@ =~= start + sleep_start_leave_ops(ret_hi, saved, nopnum));
}


/// A consistent 32 kHz tick from two successive reads: they may differ by
/// at most one count (then the first is taken); otherwise read again.
pub fn stable_32k_tick(prev: u32, value: u32) -> (r: Option<u32>)
    ensures
        ({
            let delta = (value as int - prev as int) % 0x1_0000_0000;
            &&& delta <= 1 ==> r == Some(if delta == 1 { prev } else { value })
            &&& delta > 1 ==> r is None
        }),
{
    let delta = value.wrapping_sub(prev);
    if delta <= 1 {
        Some(if delta == 1 { prev } else { value })
    } else {
        None
    }
}

/// The 32 kHz tick from its four analog bytes, most significant first.
pub open spec fn tick_of_bytes(b: [u8; 4]) -> u32 {
    (b[0] as u32 * 0x100_0000 + b[1] as u32 * 0x1_0000 + b[2] as u32 * 0x100 + b[3] as u32) as u32
}

/// The 32 kHz tick from two back-to-back readings of its four bytes (most
/// significant first): the readings count when they differ by at most one,
/// the earlier one if they differ; otherwise the read is repeated (`None`).
pub fn startup_pm_get_32k_tick(first: [u8; 4], second: [u8; 4]) -> (t: Option<u32>)
    ensures
        ({
            let prev = tick_of_bytes(first);
            let value = tick_of_bytes(second);
            let delta = ((value as int - prev as int) % 0x1_0000_0000) as u32;
            t == if delta <= 1 {
                Some(if delta == 1 { prev } else { value })
            } else {
                None
            }
        }),
{
    let prev: u32 = first[0] as u32 * 0x100_0000 + first[1] as u32 * 0x1_0000 + first[2] as u32 * 0x100
        + first[3] as u32;
    let value: u32 = second[0] as u32 * 0x100_0000 + second[1] as u32 * 0x1_0000 + second[2] as u32 * 0x100
        + second[3] as u32;
    stable_32k_tick(prev, value)
}

/// The busy loop of about 13 ms on the 24 MHz RC clock.
pub fn startup_soft_reboot_dly13ms_use24m_rc(ops: &mut Vec<RegOp>)
    ensures
        final(ops)@ == old(ops)@.push(RegOp::DelayCycles { cycles: 0x3c8c }),
{
    ops.push(RegOp::DelayCycles { cycles: 0x3c8c });
}

/// Registers the routine a sleep calls before it suspends.
pub fn startup_bls_pm_register_func_before_suspend(g: &mut PmGlobals, func: usize)
    ensures
        *final(g) == (PmGlobals { func_before_suspend: func, ..*old(g) }),
{
    g.set_func_before_suspend(func);
}

/// Stores the resume delays and recomputes the early-wakeup times.
pub fn startup_pm_set_wakeup_time_param(g: &mut PmGlobals, param: PmRDelayUs)
    ensures
        *final(g) == (PmGlobals {
            r_delay_us: param,
            early_wakeup_time_us: early_times(param, old(g).suspend_delay_us),
            ..*old(g)
        }),
{
    g.set_wakeup_time_param(param);
}

/// Stores the crystal settle parameters and recomputes the suspend and
/// minimum early-wakeup times.
pub fn startup_pm_set_xtal_stable_timer_param(g: &mut PmGlobals, delay_us: u32, loopnum: u32, nopnum: u32)
    ensures
        ({
            let suspend = ((old(g).r_delay_us.suspend_ret_r_delay_us + 0x00e6 + delay_us) % 0x1_0000) as u16;
            *final(g) == (PmGlobals {
                xtal_stable_suspend_nopnum: nopnum,
                xtal_stable_loopnum: loopnum,
                suspend_delay_us: delay_us,
                early_wakeup_time_us: PmEarlyWakeupTimeUs {
                    suspend,
                    min: early_min(old(g).early_wakeup_time_us.deep, suspend),
                    ..old(g).early_wakeup_time_us
                },
                ..*old(g)
            })
        }),
{
    g.set_xtal_stable_timer_param(delay_us, loopnum, nopnum);
}

/// Sets the ADC reference for GPIO inputs.
pub fn adc_set_gpio_calib_vref(g: &mut PmGlobals, data: u16)
    ensures
        *final(g) == (PmGlobals { adc_gpio_calib_vref: data, ..*old(g) }),
{
    g.adc_gpio_calib_vref = data;
}

/// The startup stand-in for an ADC conversion: 3300 mV with no
/// fluctuation, above the flash supply threshold the boot code checks.
pub fn adc_get_result_with_fluct() -> (r: (u32, u32))
    ensures
        r == (3300u32, 0u32),
{
    (3300, 0)
}

/// What the efuse check decides from the two info words: a chip whose
/// info word 0 has a low nibble above 9 powers down; otherwise the two
/// efuse bit fields of info word 1 are kept.
#[derive(Clone, Copy, Debug, PartialEq, Eq, Structural)]
pub enum EfuseCheck {
    PowerDown,
    Bits { bit_info_1: u8, bit_info_0: u8 },
}

pub fn efuse_sys_check(info0: u32, info1: u32) -> (r: EfuseCheck)
    ensures
        info0 % 16 > 9 ==> r == EfuseCheck::PowerDown,
        info0 % 16 <= 9 ==> r == (EfuseCheck::Bits {
            bit_info_1: ((info1 / 0x0100_0000) % 4) as u8,
            bit_info_0: (info1 / 0x2000_0000) as u8,
        }),
{
    if info0 & 0x0f > 9 {
        assert(info0 & 0x0f == info0 % 16) by (bit_vector);
        return EfuseCheck::PowerDown;
    }
    assert(info0 & 0x0f == info0 % 16) by (bit_vector);
    let bit_info_1 = ((info1 << 6u32) >> 30u32) as u8;
    let bit_info_0 = (info1 >> 29u32) as u8;
    assert(((info1 << 6u32) >> 30u32) == (info1 / 0x0100_0000) % 4) by (bit_vector);
    assert((info1 >> 29u32) == info1 / 0x2000_0000) by (bit_vector);
    EfuseCheck::Bits { bit_info_1, bit_info_0 }
}

/// What the crystal wait does after check `i` of `loops`.
#[derive(Clone, Copy, Debug, PartialEq, Eq, Structural)]
pub enum XtalWaitStep {
    Ready,
    Retry,
    Reboot,
}

/// The crystal is ready once a 60-count busy loop takes more than 20 µs;
/// after `loops` failed checks the chip reboots.
pub fn xtal_wait_step(i: u32, loops: u32, exceeded_20us: bool) -> (s: XtalWaitStep)
    ensures
        exceeded_20us ==> s == XtalWaitStep::Ready,
        !exceeded_20us && i + 1 < loops ==> s == XtalWaitStep::Retry,
        !exceeded_20us && i + 1 >= loops ==> s == XtalWaitStep::Reboot,
{
    if exceeded_20us {
        XtalWaitStep::Ready
    } else if i.wrapping_add(1) < loops && i < u32::MAX {
        XtalWaitStep::Retry
    } else {
        XtalWaitStep::Reboot
    }
}

/// The analog writes that make pad `pin` (port in the low byte, pad mask in
/// the next) wake the chip: polarity `pol` in the pull register, the enable
/// in the wake register.
pub fn startup_cpu_set_gpio_wakeup(ops: &mut Vec<RegOp>, pin: u32, pol: u32, en: i32)
    ensures
        ({
            let bit = ((pin / 256) % 256) as u8;
            let port = (pin % 256) as u8;
            final(ops)@ == old(ops)@ + seq![
                if pol == 0 {
                    RegOp::AnalogModify { reg: ((port + 0x21) % 256) as u8, clear: bit, set: 0 }
                } else {
                    RegOp::AnalogModify { reg: ((port + 0x21) % 256) as u8, clear: 0, set: bit }
                },
                if en == 0 {
                    RegOp::AnalogModify { reg: ((port + 0x27) % 256) as u8, clear: bit, set: 0 }
                } else {
                    RegOp::AnalogModify { reg: ((port + 0x27) % 256) as u8, clear: 0, set: bit }
                },
            ]
        }),
{
    let bit = ((pin / 256) % 256) as u8;
    let port = (pin % 256) as u8;
    let pull_reg = port.wrapping_add(0x21);
    let wake_reg = port.wrapping_add(0x27);
    let ghost start = ops@;
    if pol == 0 {
        ops.push(RegOp::AnalogModify { reg: pull_reg, clear: bit, set: 0 });
    } else {
        ops.push(RegOp::AnalogModify { reg: pull_reg, clear: 0, set: bit });
    }
    if en == 0 {
        ops.push(RegOp::AnalogModify { reg: wake_reg, clear: bit, set: 0 });
    } else {
        ops.push(RegOp::AnalogModify { reg: wake_reg, clear: 0, set: bit });
    }
}

pub const REG_TMR0_TICK: u32 = 0x0080_0630;
pub const REG_TMR1_TICK: u32 = 0x0080_0634;
pub const REG_TMR2_TICK: u32 = 0x0080_0638;
pub const REG_TMR_STA: u32 = 0x0080_0623;
pub const REG_MCU_WAKEUP_MASK: u32 = 0x0080_0078;
pub const REG_PWDN_CTRL: u32 = 0x0080_006f;
pub const REG_IRQ_MASK: u32 = 0x0080_0640;
pub const REG_WAKEUP_SRC: u32 = 0x0080_0040;
pub const REG_RF_IRQ_DONE: u32 = 0x0080_0f20;

/// The writes that stall the CPU until timer `tick_addr` reaches `tick`.
pub open spec fn stall_by_timer_ops(
    tick_addr: u32,
    tick: u32,
    mask: u32,
    timer_bit: u8,
    mode_clear_mask: u16,
    ctrl_offset: u32,
) -> Seq<RegOp> {
    let ctrl = (tick_addr - ctrl_offset) as u32;
    seq![
        RegOp::Write32 { addr: tick_addr, value: 0 },
        RegOp::Write32 { addr: (tick_addr - 12) as u32, value: tick },
        RegOp::Modify16 { addr: ctrl, clear: mode_clear_mask, set: 0 },
        RegOp::Modify8 { addr: ctrl, clear: 0, set: timer_bit },
        RegOp::Modify32 { addr: REG_MCU_WAKEUP_MASK, clear: 0, set: mask },
        RegOp::Write8 { addr: REG_TMR_STA, value: (mask % 256) as u8 },
        RegOp::Write8 { addr: REG_PWDN_CTRL, value: 0x80 },
        RegOp::Write8 { addr: REG_TMR_STA, value: (mask % 256) as u8 },
        RegOp::Modify8 { addr: ctrl, clear: timer_bit, set: 0 },
    ]
}

fn cpu_stall_wakeup_by_timer_common(
    ops: &mut Vec<RegOp>,
    tick_addr: u32,
    tick: u32,
    mask: u32,
    timer_bit: u8,
    mode_clear_mask: u16,
    ctrl_offset: u32,
)
    requires
        tick_addr >= 24,
        ctrl_offset <= 24,
    ensures
        final(ops)@ == old(ops)@ + stall_by_timer_ops(tick_addr, tick, mask, timer_bit, mode_clear_mask, ctrl_offset),
{
    let ghost start = ops@;
    let ctrl = tick_addr - ctrl_offset;
    ops.push(RegOp::Write32 { addr: tick_addr, value: 0 });
    ops.push(RegOp::Write32 { addr: tick_addr - 12, value: tick });
    ops.push(RegOp::Modify16 { addr: ctrl, clear: mode_clear_mask, set: 0 });
    ops.push(RegOp::Modify8 { addr: ctrl, clear: 0, set: timer_bit });
    ops.push(RegOp::Modify32 { addr: REG_MCU_WAKEUP_MASK, clear: 0, set: mask });
    ops.push(RegOp::Write8 { addr: REG_TMR_STA, value: (mask % 256) as u8 });
    ops.push(RegOp::Write8 { addr: REG_PWDN_CTRL, value: 0x80 });
    ops.push(RegOp::Write8 { addr: REG_TMR_STA, value: (mask % 256) as u8 });
    ops.push(RegOp::Modify8 { addr: ctrl, clear: timer_bit, set: 0 });
    assert(ops@ =~= start + stall_by_timer_ops(tick_addr, tick, mask, timer_bit, mode_clear_mask, ctrl_offset));
}

/// Stalls the CPU until timer 0 reaches `tick`.
pub fn startup_cpu_stall_wakeup_by_timer0(ops: &mut Vec<RegOp>, tick: u32)
    ensures
        final(ops)@ == old(ops)@ + stall_by_timer_ops(REG_TMR0_TICK, tick, 1, 0x01, 0x06, 16),
{
    cpu_stall_wakeup_by_timer_common(ops, REG_TMR0_TICK, tick, 1, 0x01, 0x06, 16);
}

/// Stalls the CPU until timer 1 reaches `tick`.
pub fn startup_cpu_stall_wakeup_by_timer1(ops: &mut Vec<RegOp>, tick: u32)
    ensures
        final(ops)@ == old(ops)@ + stall_by_timer_ops(REG_TMR1_TICK, tick, 2, 0x08, 0x30, 20),
{
    cpu_stall_wakeup_by_timer_common(ops, REG_TMR1_TICK, tick, 2, 0x08, 0x30, 20);
}

/// Stalls the CPU until timer 2 reaches `tick`.
pub fn startup_cpu_stall_wakeup_by_timer2(ops: &mut Vec<RegOp>, tick: u32)
    ensures
        final(ops)@ == old(ops)@ + stall_by_timer_ops(REG_TMR2_TICK, tick, 4, 0x40, 0x0082, 24),
{
    cpu_stall_wakeup_by_timer_common(ops, REG_TMR2_TICK, tick, 4, 0x40, 0x0082, 24);
}

/// The writes of a CPU stall up to the moment the wake source is read:
/// timer 1 armed for `interval_us` (when non-zero), the wake mask widened,
/// the RF and timer 1 interrupts masked, the CPU stopped, timer 1 disarmed.
pub open spec fn cpu_stall_ops(wakeup_src: u32, interval_us: u32, sysclktick: u32) -> Seq<RegOp> {
    (if interval_us != 0 {
        seq![
            RegOp::Write32 { addr: REG_TMR1_TICK, value: 0 },
            RegOp::Write32 { addr: (REG_TMR1_TICK - 12) as u32, value: ((interval_us * sysclktick) % 0x1_0000_0000) as u32 },
            RegOp::Write8 { addr: REG_TMR_STA, value: 2 },
            RegOp::Modify8 { addr: (REG_TMR1_TICK - 20) as u32, clear: 0x30, set: 0x08 },
        ]
    } else {
        Seq::empty()
    }) + seq![
        RegOp::Modify32 { addr: REG_MCU_WAKEUP_MASK, clear: 0, set: wakeup_src },
        RegOp::Modify32 { addr: REG_IRQ_MASK, clear: 0x0000_2002, set: 0 },
        RegOp::Write8 { addr: REG_PWDN_CTRL, value: 0x80 },
    ] + (if interval_us != 0 {
        seq![
            RegOp::Write32 { addr: REG_TMR1_TICK, value: 0 },
            RegOp::Modify8 { addr: (REG_TMR1_TICK - 20) as u32, clear: 0x08, set: 0 },
        ]
    } else {
        Seq::empty()
    })
}

/// The stall up to the read of the wake source.
pub fn startup_cpu_stall(ops: &mut Vec<RegOp>, wakeup_src: u32, interval_us: u32, sysclktick: u32)
    ensures
        final(ops)@ == old(ops)@ + cpu_stall_ops(wakeup_src, interval_us, sysclktick),
{
    let ghost start = ops@;
    if interval_us != 0 {
        ops.push(RegOp::Write32 { addr: REG_TMR1_TICK, value: 0 });
        ops.push(RegOp::Write32 { addr: REG_TMR1_TICK - 12, value: interval_us.wrapping_mul(sysclktick) });
        ops.push(RegOp::Write8 { addr: REG_TMR_STA, value: 2 });
        ops.push(RegOp::Modify8 { addr: REG_TMR1_TICK - 20, clear: 0x30, set: 0x08 });
    }
    ops.push(RegOp::Modify32 { addr: REG_MCU_WAKEUP_MASK, clear: 0, set: wakeup_src });
    ops.push(RegOp::Modify32 { addr: REG_IRQ_MASK, clear: 0x0000_2002, set: 0 });
    ops.push(RegOp::Write8 { addr: REG_PWDN_CTRL, value: 0x80 });
    if interval_us != 0 {
        ops.push(RegOp::Write32 { addr: REG_TMR1_TICK, value: 0 });
        ops.push(RegOp::Modify8 { addr: REG_TMR1_TICK - 20, clear: 0x08, set: 0 });
    }
    assert(ops@ =~= start + cpu_stall_ops(wakeup_src, interval_us, sysclktick));
}

/// The writes after the wake source was read: the timer 1 status and the
/// RF interrupt status are cleared.
pub fn startup_cpu_stall_finish(ops: &mut Vec<RegOp>)
    ensures
        final(ops)@ == old(ops)@ + seq![
            RegOp::Write8 { addr: REG_TMR_STA, value: 2 },
            RegOp::Write16 { addr: REG_RF_IRQ_DONE, value: 0xffff },
        ],
{
    let ghost start = ops@;
    ops.push(RegOp::Write8 { addr: REG_TMR_STA, value: 2 });
    ops.push(RegOp::Write16 { addr: REG_RF_IRQ_DONE, value: 0xffff });
    assert(ops@ =~= start + seq![
        RegOp::Write8 { addr: REG_TMR_STA, value: 2 },
        RegOp::Write16 { addr: REG_RF_IRQ_DONE, value: 0xffff },
    ]);
}

/// The calibration value for the GPIO ADC reference from efuse word
/// `info1`, when its top two bits mark it as programmed.
pub fn gpio_vref_from_info1(info1: u32) -> (r: Option<u16>)
    ensures
        (info1 & 0xc0) != 0xc0 ==> r is None,
        (info1 & 0xc0) == 0xc0 ==> r == Some((0x03f7 + (info1 & 0x3f) * 5) as u16),
{
    if (info1 & 0xc0) != 0xc0 {
        return None;
    }
    let low: u32 = info1 & 0x3f;
    assert(low <= 0x3f) by (bit_vector)
        requires
            low == info1 & 0x3f,
    ;
    Some((0x03f7 + low * 5) as u16)
}


// ---------------------------------------------------------------------------
// Wake-up initialisation
// ---------------------------------------------------------------------------

/// Which run of the deep-wake initialisation is going on: the one in the
/// wake-flag branch, or the one after the wake source is known.
#[derive(Clone, Copy, Debug, PartialEq, Eq, Structural)]
pub enum InitPass {
    First,
    Second,
}

/// What follows once the crystal is ready.
#[derive(Clone, Copy, Debug, PartialEq, Eq, Structural)]
pub enum WakeStage {
    DeepInit(InitPass),
    Finish,
}

/// What the wake-up initialisation was handed.
#[derive(Clone, Copy, Debug, PartialEq, Eq, Structural)]
pub enum WakeInitEvent {
    Begin,
    /// `REG_PM_WAKEUP_FLAG` and analog registers 0x7f and 0x3c.
    BootFlags { sram_shutdown_sel: u8, ana_7f: u8, ana_3c: u8 },
    XtalReady(WakeStage),
    /// The clocks are calibrated; the two efuse info words.
    ClockInfo { pass: InitPass, info0: u32, info1: u32 },
    /// The stack clearing and the flash supply calibration are done.
    DeepInitDone(InitPass),
    /// Analog register 0x44.
    WakeSource(u8),
    /// The 32 kHz tick.
    Tick32k(u32),
}

/// What the wake-up initialisation asks for next.
#[derive(Clone, Copy, Debug, PartialEq, Eq, Structural)]
pub enum WakeInitAction {
    /// Read `REG_PM_WAKEUP_FLAG` and analog registers 0x7f and 0x3c.
    ReadBootFlags,
    /// Wait for the crystal, then report `XtalReady` with the stage.
    WaitXtalReady(WakeStage),
    /// Calibrate the 24 MHz RC oscillator and the doubler (vendor routines)
    /// and read the efuse info words.
    CalibrateClocks(InitPass),
    /// Clear the stack region the efuse bits call for, calibrate the flash
    /// supply (vendor routine), then report `DeepInitDone`.
    ClearStackAndCalibrateFlash { pass: InitPass, bit_info_1: u8, bit_info_0: u8 },
    /// The chip was powered down; stop.
    Halt,
    /// Read analog register 0x44.
    ReadWakeSource,
    /// Read the 32 kHz tick.
    Read32kTick,
    /// The initialisation is over.
    Done,
}

/// Resets released, clocks on, analog defaults, retention control. The
/// 16-bit clear of the DC-DC control register is not among them: no
/// address for that register is defined.
pub open spec fn wake_init_prologue_ops() -> Seq<RegOp> {
    seq![
        RegOp::Write8 { addr: REG_RST0, value: 0x00 },
        RegOp::Write8 { addr: REG_RST1, value: 0x00 },
        RegOp::Write8 { addr: REG_RST2, value: 0x00 },
        RegOp::Write8 { addr: REG_CLK_EN0, value: 0xff },
        RegOp::Write8 { addr: REG_CLK_EN1, value: 0xff },
        RegOp::Write8 { addr: REG_CLK_EN2, value: 0xff },
        RegOp::AnalogWrite { reg: AREG_CLK_SETTING, value: 0x64 },
        RegOp::AnalogWrite { reg: ANA_USB_POWER, value: 0x80 },
        RegOp::AnalogWrite { reg: ANA_USB_DP_PULLUP, value: 0x38 },
        RegOp::AnalogWrite { reg: 0x8c, value: 0x02 },
        RegOp::AnalogWrite { reg: 0x02, value: 0xa2 },
        RegOp::AnalogWrite { reg: 0x27, value: 0x00 },
        RegOp::AnalogWrite { reg: 0x28, value: 0x00 },
        RegOp::AnalogWrite { reg: 0x29, value: 0x00 },
        RegOp::AnalogWrite { reg: 0x2a, value: 0x00 },
        RegOp::Write32 { addr: REG_PM_RET_CTRL0, value: 0x0404_0404 },
        RegOp::Write32 { addr: REG_PM_RET_CTRL1, value: 0x0404_0404 },
        RegOp::Write8 { addr: REG_PM_RET_BYTE, value: 0x04 },
    ]
}

/// Retention cleared and the GPIO wake interrupts enabled.
pub open spec fn wake_init_epilogue_ops() -> Seq<RegOp> {
    seq![
        RegOp::Write8 { addr: REG_PM_RET_CLR, value: 0x00 },
        RegOp::Write8 { addr: (REG_PM_RET_CLR + 1) as u32, value: 0x00 },
        RegOp::Modify8 { addr: REG_GPIO_WAKEUP_IRQ, clear: 0, set: 0x0c },
    ]
}

/// The system tick restarted after a retention wake.
pub open spec fn tick_restart_ops() -> Seq<RegOp> {
    seq![
        RegOp::Write8 { addr: (REG_SYSTEM_TICK + 12) as u32, value: 0x00 },
        RegOp::Write8 { addr: (REG_SYSTEM_TICK + 12) as u32, value: 0x92 },
        RegOp::Write8 { addr: REG_SYSTEM_TICK_CTRL, value: 0x01 },
    ]
}

pub open spec fn efuse_check_spec(info0: u32, info1: u32) -> EfuseCheck {
    if info0 % 16 > 9 {
        EfuseCheck::PowerDown
    } else {
        EfuseCheck::Bits { bit_info_1: ((info1 / 0x0100_0000) % 4) as u8, bit_info_0: (info1 / 0x2000_0000) as u8 }
    }
}

/// The system tick rebuilt from the 32 kHz tick `t` by the registered
/// recovery routine, or `t` itself when none is registered.
pub open spec fn recovered_tick(g: PmGlobals, t: u32) -> u32 {
    match g.tim_recover {
        PmHandler::Unset => t,
        PmHandler::Rc32k => crate::pm::recover_rc(g, t),
        PmHandler::Xtal32k => crate::pm::recover_xtal(g, t),
    }
}

/// After a deep-wake initialisation pass: the first goes on to the wake
/// source, the second ends the initialisation.
pub open spec fn pass_done(g: PmGlobals, pass: InitPass) -> (PmGlobals, Seq<RegOp>, WakeInitAction) {
    match pass {
        InitPass::First => (g, Seq::empty(), WakeInitAction::ReadWakeSource),
        InitPass::Second => (g, wake_init_epilogue_ops(), WakeInitAction::Done),
    }
}

/// The wake-up initialisation after event `ev`: the globals, the register
/// work and what to do next.
pub open spec fn wake_init_next(g: PmGlobals, ev: WakeInitEvent) -> (PmGlobals, Seq<RegOp>, WakeInitAction) {
    match ev {
        WakeInitEvent::Begin => (g, wake_init_prologue_ops(), WakeInitAction::ReadBootFlags),
        WakeInitEvent::BootFlags { sram_shutdown_sel, ana_7f, ana_3c } => {
            let sel = RegOp::AnalogWrite { reg: 0x01, value: if sram_shutdown_sel == 1 { 0x3cu8 } else { 0x4cu8 } };
            if ana_7f % 2 == 1 {
                (
                    PmGlobals { pm_param: PmPara { mcu_status: MCU_STATUS_DEEP_BACK, ..g.pm_param }, ..g },
                    seq![
                        sel,
                        RegOp::AnalogWrite { reg: 0x3c, value: (ana_3c & 0xfd) as u8 },
                        RegOp::Write8 { addr: REG_SYSTEM_TICK_CTRL, value: 0x01 },
                    ],
                    WakeInitAction::WaitXtalReady(WakeStage::DeepInit(InitPass::First)),
                )
            } else {
                (
                    PmGlobals { pm_param: PmPara { mcu_status: MCU_STATUS_DEEPRET_BACK, ..g.pm_param }, ..g },
                    seq![sel],
                    WakeInitAction::ReadWakeSource,
                )
            }
        },
        WakeInitEvent::XtalReady(stage) => match stage {
            WakeStage::DeepInit(pass) => (g, Seq::empty(), WakeInitAction::CalibrateClocks(pass)),
            WakeStage::Finish => (g, wake_init_epilogue_ops(), WakeInitAction::Done),
        },
        WakeInitEvent::ClockInfo { pass, info0, info1 } => if (info1 & 0xc0) != 0xc0 {
            match efuse_check_spec(info0, info1) {
                EfuseCheck::PowerDown => (g, seq![RegOp::Write8 { addr: REG_PWDN_CTRL, value: 0x20 }], WakeInitAction::Halt),
                EfuseCheck::Bits { bit_info_1, bit_info_0 } => (
                    g,
                    Seq::empty(),
                    WakeInitAction::ClearStackAndCalibrateFlash { pass, bit_info_1, bit_info_0 },
                ),
            }
        } else {
            pass_done(PmGlobals { adc_gpio_calib_vref: (0x03f7 + (info1 & 0x3f) * 5) as u16, ..g }, pass)
        },
        WakeInitEvent::DeepInitDone(pass) => pass_done(g, pass),
        WakeInitEvent::WakeSource(src) => {
            let g1 = PmGlobals {
                pm_param: PmPara {
                    wakeup_src: src,
                    is_pad_wakeup: if (src & 0x0a) == 0x08 { 1u8 } else { 0u8 },
                    ..g.pm_param
                },
                ..g
            };
            if g.pm_param.mcu_status == MCU_STATUS_DEEPRET_BACK {
                (g1, Seq::empty(), WakeInitAction::Read32kTick)
            } else {
                (
                    g1,
                    seq![RegOp::Write8 { addr: REG_SYSTEM_TICK_CTRL, value: 0x01 }],
                    WakeInitAction::WaitXtalReady(WakeStage::DeepInit(InitPass::Second)),
                )
            }
        },
        WakeInitEvent::Tick32k(t) => (
            PmGlobals { tick_cur: recovered_tick(g, t), ..g },
            tick_restart_ops(),
            WakeInitAction::WaitXtalReady(WakeStage::Finish),
        ),
    }
}

/// One step of the chip's wake-up initialisation. The stage records and
/// boot-flag copies kept for debugging (the startup and persistent debug
/// words) are not kept: nothing in the library reads them. From `Begin` it releases
/// the resets and sets the analog defaults; the boot flags decide between a
/// return from deep sleep (`MCU_STATUS_DEEP_BACK`, with the clock and efuse
/// initialisation run twice) and one from deep retention
/// (`MCU_STATUS_DEEPRET_BACK`, with the system tick rebuilt from the 32 kHz
/// tick); the wake source comes from analog register 0x44.
pub fn wakeup_init_step(g: &mut PmGlobals, ops: &mut Vec<RegOp>, ev: WakeInitEvent) -> (a: WakeInitAction)
    ensures
        *final(g) == wake_init_next(*old(g), ev).0,
        final(ops)@ == old(ops)@ + wake_init_next(*old(g), ev).1,
        a == wake_init_next(*old(g), ev).2,
{
    let ghost start = ops@;
    match ev {
        WakeInitEvent::Begin => {
            ops.push(RegOp::Write8 { addr: REG_RST0, value: 0x00 });
            ops.push(RegOp::Write8 { addr: REG_RST1, value: 0x00 });
            ops.push(RegOp::Write8 { addr: REG_RST2, value: 0x00 });
            ops.push(RegOp::Write8 { addr: REG_CLK_EN0, value: 0xff });
            ops.push(RegOp::Write8 { addr: REG_CLK_EN1, value: 0xff });
            ops.push(RegOp::Write8 { addr: REG_CLK_EN2, value: 0xff });
            ops.push(RegOp::AnalogWrite { reg: AREG_CLK_SETTING, value: 0x64 });
            ops.push(RegOp::AnalogWrite { reg: ANA_USB_POWER, value: 0x80 });
            ops.push(RegOp::AnalogWrite { reg: ANA_USB_DP_PULLUP, value: 0x38 });
            ops.push(RegOp::AnalogWrite { reg: 0x8c, value: 0x02 });
            ops.push(RegOp::AnalogWrite { reg: 0x02, value: 0xa2 });
            ops.push(RegOp::AnalogWrite { reg: 0x27, value: 0x00 });
            ops.push(RegOp::AnalogWrite { reg: 0x28, value: 0x00 });
            ops.push(RegOp::AnalogWrite { reg: 0x29, value: 0x00 });
            ops.push(RegOp::AnalogWrite { reg: 0x2a, value: 0x00 });
            ops.push(RegOp::Write32 { addr: REG_PM_RET_CTRL0, value: 0x0404_0404 });
            ops.push(RegOp::Write32 { addr: REG_PM_RET_CTRL1, value: 0x0404_0404 });
            ops.push(RegOp::Write8 { addr: REG_PM_RET_BYTE, value: 0x04 });
            assert(ops@ =~= start + wake_init_prologue_ops());
            WakeInitAction::ReadBootFlags
        },
        WakeInitEvent::BootFlags { sram_shutdown_sel, ana_7f, ana_3c } => {
            let v: u8 = if sram_shutdown_sel == 1 { 0x3c } else { 0x4c };
            ops.push(RegOp::AnalogWrite { reg: 0x01, value: v });
            if ana_7f % 2 == 1 {
                g.pm_param.mcu_status = MCU_STATUS_DEEP_BACK;
                ops.push(RegOp::AnalogWrite { reg: 0x3c, value: ana_3c & 0xfd });
                ops.push(RegOp::Write8 { addr: REG_SYSTEM_TICK_CTRL, value: 0x01 });
                assert(ops@ =~= start + seq![
                    RegOp::AnalogWrite { reg: 0x01, value: v },
                    RegOp::AnalogWrite { reg: 0x3c, value: ana_3c & 0xfd },
                    RegOp::Write8 { addr: REG_SYSTEM_TICK_CTRL, value: 0x01 },
                ]);
                WakeInitAction::WaitXtalReady(WakeStage::DeepInit(InitPass::First))
            } else {
                g.pm_param.mcu_status = MCU_STATUS_DEEPRET_BACK;
                assert(ops@ =~= start + seq![RegOp::AnalogWrite { reg: 0x01, value: v }]);
                WakeInitAction::ReadWakeSource
            }
        },
        WakeInitEvent::XtalReady(stage) => match stage {
            WakeStage::DeepInit(pass) => {
                assert(ops@ =~= start + Seq::empty());
                WakeInitAction::CalibrateClocks(pass)
            },
            WakeStage::Finish => {
                wake_init_epilogue(ops);
                WakeInitAction::Done
            },
        },
        WakeInitEvent::ClockInfo { pass, info0, info1 } => {
            match gpio_vref_from_info1(info1) {
                None => match efuse_sys_check(info0, info1) {
                    EfuseCheck::PowerDown => {
                        ops.push(RegOp::Write8 { addr: REG_PWDN_CTRL, value: 0x20 });
                        assert(ops@ =~= start + seq![RegOp::Write8 { addr: REG_PWDN_CTRL, value: 0x20 }]);
                        WakeInitAction::Halt
                    },
                    EfuseCheck::Bits { bit_info_1, bit_info_0 } => {
                        assert(ops@ =~= start + Seq::empty());
                        WakeInitAction::ClearStackAndCalibrateFlash { pass, bit_info_1, bit_info_0 }
                    },
                },
                Some(v) => {
                    adc_set_gpio_calib_vref(g, v);
                    init_pass_done(ops, pass)
                },
            }
        },
        WakeInitEvent::DeepInitDone(pass) => init_pass_done(ops, pass),
        WakeInitEvent::WakeSource(src) => {
            let deepret = g.pm_param.mcu_status == MCU_STATUS_DEEPRET_BACK;
            g.pm_param.wakeup_src = src;
            g.pm_param.is_pad_wakeup = if (src & 0x0a) == 0x08 { 1 } else { 0 };
            if deepret {
                assert(ops@ =~= start + Seq::empty());
                WakeInitAction::Read32kTick
            } else {
                ops.push(RegOp::Write8 { addr: REG_SYSTEM_TICK_CTRL, value: 0x01 });
                assert(ops@ =~= start + seq![RegOp::Write8 { addr: REG_SYSTEM_TICK_CTRL, value: 0x01 }]);
                WakeInitAction::WaitXtalReady(WakeStage::DeepInit(InitPass::Second))
            }
        },
        WakeInitEvent::Tick32k(t) => {
            let cur = match g.tim_recover {
                PmHandler::Unset => t,
                PmHandler::Rc32k => crate::pm::pm_tim_recover_32k_rc(g, t),
                PmHandler::Xtal32k => crate::pm::pm_tim_recover_32k_xtal(g, t),
            };
            g.tick_cur = cur;
            ops.push(RegOp::Write8 { addr: REG_SYSTEM_TICK + 12, value: 0x00 });
            ops.push(RegOp::Write8 { addr: REG_SYSTEM_TICK + 12, value: 0x92 });
            ops.push(RegOp::Write8 { addr: REG_SYSTEM_TICK_CTRL, value: 0x01 });
            assert(ops@ =~= start + tick_restart_ops());
            WakeInitAction::WaitXtalReady(WakeStage::Finish)
        },
    }
}

fn wake_init_epilogue(ops: &mut Vec<RegOp>)
    ensures
        final(ops)@ == old(ops)@ + wake_init_epilogue_ops(),
{
    let ghost start = ops@;
    ops.push(RegOp::Write8 { addr: REG_PM_RET_CLR, value: 0x00 });
    ops.push(RegOp::Write8 { addr: REG_PM_RET_CLR + 1, value: 0x00 });
    ops.push(RegOp::Modify8 { addr: REG_GPIO_WAKEUP_IRQ, clear: 0, set: 0x0c });
    assert(ops@ =~= start + wake_init_epilogue_ops());
}

fn init_pass_done(ops: &mut Vec<RegOp>, pass: InitPass) -> (a: WakeInitAction)
    ensures
        forall|g: PmGlobals|
            #![trigger pass_done(g, pass)]
            final(ops)@ == old(ops)@ + pass_done(g, pass).1 && a == pass_done(g, pass).2,
{
    match pass {
        InitPass::First => {
            assert(ops@ =~= old(ops)@ + Seq::empty());
            WakeInitAction::ReadWakeSource
        },
        InitPass::Second => {
            wake_init_epilogue(ops);
            WakeInitAction::Done
        },
    }
}

/// The start of the wake-up initialisation: the `Begin` step.
pub fn startup_cpu_wakeup_init(g: &mut PmGlobals, ops: &mut Vec<RegOp>) -> (a: WakeInitAction)
    ensures
        *final(g) == *old(g),
        final(ops)@ == old(ops)@ + wake_init_prologue_ops(),
        a == WakeInitAction::ReadBootFlags,
{
    wakeup_init_step(g, ops, WakeInitEvent::Begin)
}

/// The deep-wake initialisation decision once the clocks are calibrated:
/// a programmed efuse sets the GPIO ADC reference; otherwise the efuse is
/// checked (powering the chip down, or clearing the stack and calibrating
/// the flash supply).
pub fn cpu_wakeup_no_deepretn_back_init(
    g: &mut PmGlobals,
    ops: &mut Vec<RegOp>,
    pass: InitPass,
    info0: u32,
    info1: u32,
) -> (a: WakeInitAction)
    ensures
        *final(g) == wake_init_next(*old(g), WakeInitEvent::ClockInfo { pass, info0, info1 }).0,
        final(ops)@ == old(ops)@ + wake_init_next(*old(g), WakeInitEvent::ClockInfo { pass, info0, info1 }).1,
        a == wake_init_next(*old(g), WakeInitEvent::ClockInfo { pass, info0, info1 }).2,
{
    wakeup_init_step(g, ops, WakeInitEvent::ClockInfo { pass, info0, info1 })
}


/// The stack the efuse check clears, from the stack pointer `sp`: with
/// `cur` the stack pointer rounded down to 256 bytes, the words from
/// `cur - 100` rounded down to `cur + 100` rounded down (both wrapping),
/// every 16 bytes. Nothing is cleared when `bit_info_0` is 0, nor, when
/// `bit_info_1` is 0, unless `bit_info_0` is 2 with `cur` above
/// 0x84_8000 or 4 with `cur` above 0x84_c000.
pub open spec fn efuse_stack_range(bit_info_1: u8, bit_info_0: u8, sp: u32) -> Option<(u32, u32)> {
    let cur = sp & 0xffff_ff00u32;
    let keep = bit_info_0 == 0 || (bit_info_1 == 0 && !((bit_info_0 == 2 && cur > 0x0084_8000) || (bit_info_0 == 4
        && cur > 0x0084_c000)));
    if keep {
        None
    } else {
        Some(
            (
                (((cur as int - 100) % 0x1_0000_0000) as u32) & 0xffff_ff00u32,
                (((cur as int + 100) % 0x1_0000_0000) as u32) & 0xffff_ff00u32,
            ),
        )
    }
}

/// The range of stack words to clear after the efuse check of an
/// unprogrammed efuse word (see [`efuse_stack_range`]).
pub fn efuse_stack_clear(bit_info_1: u8, bit_info_0: u8, sp: u32) -> (r: Option<(u32, u32)>)
    ensures
        r == efuse_stack_range(bit_info_1, bit_info_0, sp),
{
    let cur = sp & 0xffff_ff00u32;
    if bit_info_0 == 0 {
        return None;
    }
    if bit_info_1 == 0 {
        if bit_info_0 == 2 {
            if cur <= 0x0084_8000 {
                return None;
            }
        } else if bit_info_0 == 4 {
            if cur <= 0x0084_c000 {
                return None;
            }
        } else {
            return None;
        }
    }
    Some((cur.wrapping_sub(100) & 0xffff_ff00u32, cur.wrapping_add(100) & 0xffff_ff00u32))
}
} // verus!
