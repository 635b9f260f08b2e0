//! Power management: sleep modes and wake sources, the arithmetic between
//! the 32 kHz sleep timer and the 16 MHz system timer, and the decisions
//! and register programs of the sleep entry routines.

use vstd::prelude::*;
use crate::gpio::{Level, RawPin};
use crate::mmio::RegOp;
use crate::startup::{
    early_min, early_times, startup_cpu_set_gpio_wakeup, startup_state_of, PmEarlyWakeupTimeUs, PmGlobals, PmHandler,
    PmRDelayUs, StartupState,
};

verus! {

pub const RC_32K_HZ: u32 = 32_000;
pub const XTAL_32K_HZ: u32 = 32_768;
pub const SYS_TICK_HZ: u32 = 16_000_000;
/// Longest sleep, in milliseconds, taken on the system-timer path.
pub const PM_NORMAL_SLEEP_MAX_MS: u32 = 230_000;

pub const PM_WAKEUP_PAD_BITS: u8 = 0x10;
pub const PM_WAKEUP_CORE_BITS: u8 = 0x20;
pub const PM_WAKEUP_TIMER_BITS: u8 = 0x40;
pub const PM_WAKEUP_COMPARATOR_BITS: u8 = 0x80;
pub const WAKEUP_STATUS_ALL: u8 = 0x0f;
/// System ticks per 32 cycles of the 32.768 kHz crystal.
pub const CRYSTAL32768_TICK_PER_32CYCLE: u32 = 15625;

pub const WAKEUP_STATUS_COMPARATOR: u32 = 0x01;
pub const WAKEUP_STATUS_TIMER: u32 = 0x02;
pub const WAKEUP_STATUS_CORE: u32 = 0x04;
pub const WAKEUP_STATUS_PAD: u32 = 0x08;
pub const WAKEUP_STATUS_WD: u32 = 0x40;
pub const STATUS_GPIO_ERR_NO_ENTER_PM: u32 = 0x100;
pub const STATUS_ENTER_SUSPEND: u32 = 0x4000_0000;

pub const REG_SYSTEM_TICK: u32 = 0x0080_0740;
pub const REG_SYSTEM_WAKEUP_TICK: u32 = 0x0080_0748;
pub const REG_MCU_WAKEUP_MASK: u32 = 0x0080_0078;
pub const REG_PWDN_CTRL: u32 = 0x0080_006f;

#[derive(Clone, Copy, Debug, PartialEq, Eq, Structural)]
pub enum SleepMode {
    Suspend,
    DeepSleep,
    DeepSleepRetentionLow8K,
    DeepSleepRetentionLow16K,
    DeepSleepRetentionLow32K,
    Shutdown,
}

/// The mode byte the power controller takes for each sleep mode.
pub open spec fn mode_byte(m: SleepMode) -> u8 {
    match m {
        SleepMode::Suspend => 0x00,
        SleepMode::DeepSleep => 0x80,
        SleepMode::DeepSleepRetentionLow8K => 0x61,
        SleepMode::DeepSleepRetentionLow16K => 0x43,
        SleepMode::DeepSleepRetentionLow32K => 0x07,
        SleepMode::Shutdown => 0xff,
    }
}

impl SleepMode {
    pub fn raw(self) -> (r: u8)
        ensures
            r == mode_byte(self),
    {
        match self {
            SleepMode::Suspend => 0x00,
            SleepMode::DeepSleep => 0x80,
            SleepMode::DeepSleepRetentionLow8K => 0x61,
            SleepMode::DeepSleepRetentionLow16K => 0x43,
            SleepMode::DeepSleepRetentionLow32K => 0x07,
            SleepMode::Shutdown => 0xff,
        }
    }

    pub fn is_suspend(self) -> (b: bool)
        ensures
            b == (self == SleepMode::Suspend),
    {
        self == SleepMode::Suspend
    }

    /// Whether the mode keeps part of the SRAM powered.
    pub fn retains_sram(self) -> (b: bool)
        ensures
            b == (self == SleepMode::DeepSleepRetentionLow8K || self == SleepMode::DeepSleepRetentionLow16K || self
                == SleepMode::DeepSleepRetentionLow32K),
    {
        self == SleepMode::DeepSleepRetentionLow8K || self == SleepMode::DeepSleepRetentionLow16K || self
            == SleepMode::DeepSleepRetentionLow32K
    }
}

/// The sleep mode of a mode word; unknown values mean suspend.
pub open spec fn mode_of_word(raw: u32) -> SleepMode {
    let b = (raw % 256) as u8;
    if b == 0x80 {
        SleepMode::DeepSleep
    } else if b == 0x61 {
        SleepMode::DeepSleepRetentionLow8K
    } else if b == 0x43 {
        SleepMode::DeepSleepRetentionLow16K
    } else if b == 0x07 {
        SleepMode::DeepSleepRetentionLow32K
    } else if b == 0xff {
        SleepMode::Shutdown
    } else {
        SleepMode::Suspend
    }
}

pub fn decode_mode(raw: u32) -> (m: SleepMode)
    ensures
        m == mode_of_word(raw),
{
    let b = (raw % 256) as u8;
    if b == 0x00 {
        SleepMode::Suspend
    } else if b == 0x80 {
        SleepMode::DeepSleep
    } else if b == 0x61 {
        SleepMode::DeepSleepRetentionLow8K
    } else if b == 0x43 {
        SleepMode::DeepSleepRetentionLow16K
    } else if b == 0x07 {
        SleepMode::DeepSleepRetentionLow32K
    } else if b == 0xff {
        SleepMode::Shutdown
    } else {
        SleepMode::Suspend
    }
}

/// A set of wake sources, as the bits of the wake mask register.
#[derive(Clone, Copy, Debug, PartialEq, Eq, Structural)]
pub struct WakeupSource(u8);

impl WakeupSource {
    // The single sources as their mask bits; `none()`, `pad()`,
    // `core_source()`, `timer()` and `comparator()` give them as sets.
    pub const NONE: u8 = 0;
    pub const PAD: u8 = 0x10;
    pub const CORE: u8 = 0x20;
    pub const TIMER: u8 = 0x40;
    pub const COMPARATOR: u8 = 0x80;

    pub closed spec fn bits(self) -> u8 {
        self.0
    }

    /// The set with bits `b`.
    pub closed spec fn spec_from_bits(b: u8) -> Self {
        WakeupSource(b)
    }

    pub proof fn lemma_bits_determine(w: Self)
        ensures
            Self::spec_from_bits(w.bits()) == w,
    {
    }

    pub proof fn lemma_from_bits(b: u8)
        ensures
            Self::spec_from_bits(b).bits() == b,
    {
    }

    pub fn from_raw(raw: u8) -> (w: Self)
        ensures
            w.bits() == raw,
    {
        WakeupSource(raw)
    }

    pub fn none() -> (w: Self)
        ensures
            w.bits() == Self::NONE,
    {
        WakeupSource(Self::NONE)
    }

    pub fn pad() -> (w: Self)
        ensures
            w.bits() == Self::PAD,
    {
        WakeupSource(Self::PAD)
    }

    pub fn core_source() -> (w: Self)
        ensures
            w.bits() == Self::CORE,
    {
        WakeupSource(Self::CORE)
    }

    pub fn timer() -> (w: Self)
        ensures
            w.bits() == Self::TIMER,
    {
        WakeupSource(Self::TIMER)
    }

    pub fn comparator() -> (w: Self)
        ensures
            w.bits() == Self::COMPARATOR,
    {
        WakeupSource(Self::COMPARATOR)
    }

    pub fn raw(self) -> (r: u8)
        ensures
            r == self.bits(),
    {
        self.0
    }

    /// Whether every source of `other` is in `self`.
    pub fn contains(self, other: Self) -> (b: bool)
        ensures
            b == ((self.bits() & other.bits()) == other.bits()),
    {
        (self.0 & other.0) == other.0
    }

    pub fn is_empty(self) -> (b: bool)
        ensures
            b == (self.bits() == 0),
    {
        self.0 == 0
    }

    /// `self` with the sources of `other` removed.
    pub fn without(self, other: Self) -> (w: Self)
        ensures
            w.bits() == self.bits() & !other.bits(),
    {
        WakeupSource(self.0 & !other.0)
    }

    pub closed spec fn union(self, other: Self) -> Self {
        WakeupSource(self.0 | other.0)
    }

    pub proof fn lemma_union_bits(self, other: Self)
        ensures
            self.union(other).bits() == self.bits() | other.bits(),
    {
    }
}

impl core::ops::BitOr for WakeupSource {
    type Output = Self;

    fn bitor(self, rhs: Self) -> (w: Self) {
        WakeupSource(self.0 | rhs.0)
    }
}

impl vstd::std_specs::ops::BitOrSpecImpl for WakeupSource {
    open spec fn obeys_bitor_spec() -> bool {
        true
    }

    open spec fn bitor_req(self, rhs: Self) -> bool {
        true
    }

    open spec fn bitor_spec(self, rhs: Self) -> Self {
        self.union(rhs)
    }
}

/// Removing a source from a set that holds it with others leaves exactly
/// the others, and a source a set holds is contained in it.
pub proof fn lemma_without_union(a: u8, b: u8)
    requires
        a & b == 0,
    ensures
        (a | b) & !b == a,
        ((a | b) & b) == b,
        b != 0 ==> (a & b) != b,
{
    assert((a | b) & !b == a && ((a | b) & b) == b && (b != 0 ==> (a & b) != b)) by (bit_vector)
        requires
            a & b == 0,
    ;
}

#[derive(Clone, Copy, Debug, PartialEq, Eq, Structural)]
pub enum Clock32kSource {
    InternalRc,
    ExternalCrystal,
}

#[derive(Clone, Copy, Debug, PartialEq, Eq, Structural)]
pub enum WakeOrigin {
    ColdBoot,
    DeepWake,
    DeepRetentionWake,
}

#[derive(Clone, Copy, Debug, PartialEq, Eq, Structural)]
pub enum WakeupLevel {
    Low,
    High,
}

impl WakeupLevel {
    /// The polarity word of the level: 0 for low, 1 for high.
    pub fn code(self) -> (c: u32)
        ensures
            c == (if self == WakeupLevel::High { 1u32 } else { 0u32 }),
    {
        match self {
            WakeupLevel::Low => 0,
            WakeupLevel::High => 1,
        }
    }
}

impl From<Level> for WakeupLevel {
    fn from(value: Level) -> (r: Self) {
        match value {
            Level::Low => WakeupLevel::Low,
            Level::High => WakeupLevel::High,
        }
    }
}

impl vstd::std_specs::convert::FromSpecImpl<Level> for WakeupLevel {
    open spec fn obeys_from_spec() -> bool {
        true
    }

    open spec fn from_spec(v: Level) -> WakeupLevel {
        match v {
            Level::Low => WakeupLevel::Low,
            Level::High => WakeupLevel::High,
        }
    }
}

#[derive(Clone, Copy, Debug, PartialEq, Eq, Structural)]
pub struct WakeupTiming {
    pub deep_r_delay_us: u16,
    pub suspend_ret_r_delay_us: u16,
}

#[derive(Clone, Copy, Debug, PartialEq, Eq, Structural)]
pub struct XtalStableTiming {
    pub delay_us: u32,
    pub loop_count: u32,
    pub nop_count: u32,
}

#[derive(Clone, Copy, Debug, PartialEq, Eq, Structural)]
pub struct Config {
    pub clock_32k: Clock32kSource,
    pub wakeup_timing: WakeupTiming,
    pub xtal_stable_timing: XtalStableTiming,
}

pub open spec fn default_wakeup_timing() -> WakeupTiming {
    WakeupTiming { deep_r_delay_us: 1000, suspend_ret_r_delay_us: 1000 }
}

pub open spec fn default_xtal_timing() -> XtalStableTiming {
    XtalStableTiming { delay_us: 0x87, loop_count: 10, nop_count: 200 }
}

impl Config {
    /// Internal RC 32 kHz clock, 1 ms resume delays, vendor crystal settle.
    pub fn internal_rc() -> (c: Self)
        ensures
            c == (Config {
                clock_32k: Clock32kSource::InternalRc,
                wakeup_timing: default_wakeup_timing(),
                xtal_stable_timing: default_xtal_timing(),
            }),
    {
        Config {
            clock_32k: Clock32kSource::InternalRc,
            wakeup_timing: WakeupTiming { deep_r_delay_us: 1000, suspend_ret_r_delay_us: 1000 },
            xtal_stable_timing: XtalStableTiming { delay_us: 0x87, loop_count: 10, nop_count: 200 },
        }
    }

    /// The same with the external 32.768 kHz crystal.
    pub fn external_crystal() -> (c: Self)
        ensures
            c == (Config {
                clock_32k: Clock32kSource::ExternalCrystal,
                wakeup_timing: default_wakeup_timing(),
                xtal_stable_timing: default_xtal_timing(),
            }),
    {
        let base = Self::internal_rc();
        Config { clock_32k: Clock32kSource::ExternalCrystal, ..base }
    }
}

#[derive(Clone, Copy, Debug, PartialEq, Eq, Structural)]
pub struct SleepRequest {
    pub mode: SleepMode,
    pub wakeup_src: WakeupSource,
    pub wakeup_tick: u32,
}

#[derive(Clone, Copy, Debug, PartialEq, Eq, Structural)]
pub struct SleepResult {
    pub raw: u32,
}

#[derive(Clone, Copy, Debug, PartialEq, Eq, Structural)]
pub enum SleepMsKind {
    Short,
    Long,
}

/// The wake-status bits latched by the last wake-up.
#[derive(Clone, Copy, Debug, PartialEq, Eq, Structural)]
pub struct WakeupStatus(pub u8);

impl WakeupStatus {
    pub fn raw(self) -> (r: u8)
        ensures
            r == self.0,
    {
        self.0
    }

    pub fn contains_timer(self) -> (b: bool)
        ensures
            b == ((self.0 & 0x02) != 0),
    {
        (self.0 & 0x02) != 0
    }

    pub fn contains_pad(self) -> (b: bool)
        ensures
            b == ((self.0 & 0x08) != 0),
    {
        (self.0 & 0x08) != 0
    }

    pub fn contains_core(self) -> (b: bool)
        ensures
            b == ((self.0 & 0x04) != 0),
    {
        (self.0 & 0x04) != 0
    }

    pub fn contains_comparator(self) -> (b: bool)
        ensures
            b == ((self.0 & 0x01) != 0),
    {
        (self.0 & 0x01) != 0
    }
}

#[derive(Clone, Copy, Debug, PartialEq, Eq, Structural)]
pub struct WakeInfo {
    pub origin: WakeOrigin,
    pub source: WakeupStatus,
    pub is_pad_wakeup: bool,
}

pub open spec fn origin_of(s: StartupState) -> WakeOrigin {
    match s {
        StartupState::Boot => WakeOrigin::ColdBoot,
        StartupState::Deep => WakeOrigin::DeepWake,
        StartupState::DeepRetention => WakeOrigin::DeepRetentionWake,
    }
}

/// How the chip came up.
pub fn state(g: &PmGlobals) -> (s: StartupState)
    ensures
        s == startup_state_of(g.pm_param.mcu_status),
{
    g.startup_state()
}

pub fn wake_origin(g: &PmGlobals) -> (o: WakeOrigin)
    ensures
        o == origin_of(startup_state_of(g.pm_param.mcu_status)),
{
    match g.startup_state() {
        StartupState::Boot => WakeOrigin::ColdBoot,
        StartupState::Deep => WakeOrigin::DeepWake,
        StartupState::DeepRetention => WakeOrigin::DeepRetentionWake,
    }
}

pub fn is_cold_boot(g: &PmGlobals) -> (b: bool)
    ensures
        b == (origin_of(startup_state_of(g.pm_param.mcu_status)) == WakeOrigin::ColdBoot),
{
    wake_origin(g) == WakeOrigin::ColdBoot
}

pub fn wakeup_source_raw(g: &PmGlobals) -> (w: u8)
    ensures
        w == g.pm_param.wakeup_src,
{
    g.wakeup_src_raw()
}

pub fn is_pad_wakeup(g: &PmGlobals) -> (b: bool)
    ensures
        b == (g.pm_param.is_pad_wakeup != 0),
{
    g.is_pad_wakeup()
}

/// Origin, latched sources and pad flag of the last wake-up.
pub fn wake_info(g: &PmGlobals) -> (w: WakeInfo)
    ensures
        w.origin == origin_of(startup_state_of(g.pm_param.mcu_status)),
        w.source == WakeupStatus(g.pm_param.wakeup_src),
        w.is_pad_wakeup == (g.pm_param.is_pad_wakeup != 0),
{
    WakeInfo { origin: wake_origin(g), source: WakeupStatus(wakeup_source_raw(g)), is_pad_wakeup: is_pad_wakeup(g) }
}

pub fn current_32k_source(g: &PmGlobals) -> (s: Clock32kSource)
    ensures
        s == g.clock_32k_source,
{
    g.clock_32k_source
}

/// Stores the resume delays of `timing`.
pub fn set_wakeup_timing(g: &mut PmGlobals, timing: WakeupTiming)
    ensures
        ({
            let r = PmRDelayUs {
                deep_r_delay_us: timing.deep_r_delay_us,
                suspend_ret_r_delay_us: timing.suspend_ret_r_delay_us,
            };
            *final(g) == (PmGlobals {
                r_delay_us: r,
                early_wakeup_time_us: early_times(r, old(g).suspend_delay_us),
                ..*old(g)
            })
        }),
{
    g.set_wakeup_time_param(
        PmRDelayUs { deep_r_delay_us: timing.deep_r_delay_us, suspend_ret_r_delay_us: timing.suspend_ret_r_delay_us },
    );
}

/// Stores the crystal settle parameters of `timing`.
pub fn set_xtal_stable_timing(g: &mut PmGlobals, timing: XtalStableTiming)
    ensures
        ({
            let suspend = ((old(g).r_delay_us.suspend_ret_r_delay_us + 0x00e6 + timing.delay_us) % 0x1_0000) as u16;
            *final(g) == (PmGlobals {
                xtal_stable_suspend_nopnum: timing.nop_count,
                xtal_stable_loopnum: timing.loop_count,
                suspend_delay_us: timing.delay_us,
                early_wakeup_time_us: crate::startup::PmEarlyWakeupTimeUs {
                    suspend,
                    min: early_min(old(g).early_wakeup_time_us.deep, suspend),
                    ..old(g).early_wakeup_time_us
                },
                ..*old(g)
            })
        }),
{
    g.set_xtal_stable_timer_param(timing.delay_us, timing.loop_count, timing.nop_count);
}

/// Records the system timer rate (ticks per microsecond).
pub fn sync_sys_tick_per_us(g: &mut PmGlobals, ticks_per_us: u32)
    ensures
        *final(g) == (PmGlobals { sys_timer_per_us: ticks_per_us, ..*old(g) }),
{
    g.sys_timer_per_us = ticks_per_us;
}

/// System ticks per 16 (RC) or 32 (crystal) cycles of the 32 kHz clock, the
/// scale of the sleep timer calibration.
pub open spec fn calib_seed(source: Clock32kSource) -> u16 {
    match source {
        Clock32kSource::InternalRc => 8_000,
        Clock32kSource::ExternalCrystal => 15_625,
    }
}

/// The globals after selecting `source` for the sleep timer: calibration
/// seed, time recovery and sleep routines, the clock-stable check (crystal
/// only), the 32 kHz pad flag, and power-management entry enabled.
pub open spec fn selected(g: PmGlobals, source: Clock32kSource) -> PmGlobals {
    let h = if source == Clock32kSource::InternalRc { PmHandler::Rc32k } else { PmHandler::Xtal32k };
    PmGlobals {
        clock_32k_source: source,
        tick_32k_calib: calib_seed(source),
        tim_recover: h,
        cpu_sleep_wakeup: h,
        check_32k_clk_stable: if source == Clock32kSource::InternalRc { PmHandler::Unset } else { PmHandler::Xtal32k },
        misc: crate::startup::MiscPara {
            pad32k_en: if source == Clock32kSource::ExternalCrystal { 1u8 } else { 0u8 },
            pm_enter_en: 1,
            ..g.misc
        },
        ..g
    }
}

pub fn select_32k_source(g: &mut PmGlobals, source: Clock32kSource)
    ensures
        *final(g) == selected(*old(g), source),
{
    g.clock_32k_source = source;
    let calib: u16 = match source {
        Clock32kSource::InternalRc => 8_000,
        Clock32kSource::ExternalCrystal => 15_625,
    };
    g.set_tick_32k_calib(calib);
    let h = match source {
        Clock32kSource::InternalRc => PmHandler::Rc32k,
        Clock32kSource::ExternalCrystal => PmHandler::Xtal32k,
    };
    let check = match source {
        Clock32kSource::InternalRc => PmHandler::Unset,
        Clock32kSource::ExternalCrystal => PmHandler::Xtal32k,
    };
    g.set_pm_tim_recover_handler(h);
    g.set_cpu_sleep_wakeup_handler(h);
    g.set_pm_check_32k_clk_stable_handler(check);
    g.set_misc_pad32k_enabled(source == Clock32kSource::ExternalCrystal);
    g.set_misc_pm_enter_enabled(true);
}

pub fn pm_select_internal_32k_rc(g: &mut PmGlobals)
    ensures
        *final(g) == selected(*old(g), Clock32kSource::InternalRc),
{
    select_32k_source(g, Clock32kSource::InternalRc);
}

pub fn pm_select_external_32k_crystal(g: &mut PmGlobals)
    ensures
        *final(g) == selected(*old(g), Clock32kSource::ExternalCrystal),
{
    select_32k_source(g, Clock32kSource::ExternalCrystal);
}

/// The analog setup of the 32 kHz clock: the crystal select bit of 0x2d and
/// the 32 kHz power field of 0x05 (RC or crystal).
pub open spec fn init_32k_ops(source: Clock32kSource) -> Seq<RegOp> {
    match source {
        Clock32kSource::InternalRc => seq![
            RegOp::AnalogModify { reg: 0x2d, clear: 0x80, set: 0 },
            RegOp::AnalogModify { reg: 0x05, clear: 0x03, set: 0x02 },
        ],
        Clock32kSource::ExternalCrystal => seq![
            RegOp::AnalogModify { reg: 0x2d, clear: 0, set: 0x80 },
            RegOp::AnalogModify { reg: 0x05, clear: 0x03, set: 0x01 },
        ],
    }
}

pub fn init_32k_source_ops(ops: &mut Vec<RegOp>, source: Clock32kSource)
    ensures
        final(ops)@ == old(ops)@ + init_32k_ops(source),
{
    let ghost start = ops@;
    match source {
        Clock32kSource::InternalRc => {
            ops.push(RegOp::AnalogModify { reg: 0x2d, clear: 0x80, set: 0 });
            ops.push(RegOp::AnalogModify { reg: 0x05, clear: 0x03, set: 0x02 });
        },
        Clock32kSource::ExternalCrystal => {
            ops.push(RegOp::AnalogModify { reg: 0x2d, clear: 0, set: 0x80 });
            ops.push(RegOp::AnalogModify { reg: 0x05, clear: 0x03, set: 0x01 });
        },
    }
    assert(ops@ =~= start + init_32k_ops(source));
}

/// The writes that start the RC oscillator calibration (the caller then
/// waits for bit 6 of analog 0xcf).
pub fn rc_32k_cal_start_ops(ops: &mut Vec<RegOp>)
    ensures
        final(ops)@ == old(ops)@ + seq![
            RegOp::AnalogWrite { reg: 0x30, value: 0x60 },
            RegOp::AnalogWrite { reg: 0xc6, value: 0xf6 },
            RegOp::AnalogWrite { reg: 0xc6, value: 0xf7 },
        ],
{
    let ghost start = ops@;
    ops.push(RegOp::AnalogWrite { reg: 0x30, value: 0x60 });
    ops.push(RegOp::AnalogWrite { reg: 0xc6, value: 0xf6 });
    ops.push(RegOp::AnalogWrite { reg: 0xc6, value: 0xf7 });
    assert(ops@ =~= start + seq![
        RegOp::AnalogWrite { reg: 0x30, value: 0x60 },
        RegOp::AnalogWrite { reg: 0xc6, value: 0xf6 },
        RegOp::AnalogWrite { reg: 0xc6, value: 0xf7 },
    ]);
}

/// The writes that store the calibration result (`c9`, `ca` read from
/// analog 0xc9 and 0xca) and stop the calibration.
pub fn rc_32k_cal_finish_ops(ops: &mut Vec<RegOp>, c9: u8, ca: u8)
    ensures
        final(ops)@ == old(ops)@ + seq![
            RegOp::AnalogWrite { reg: 0x32, value: c9 },
            RegOp::AnalogWrite { reg: 0x31, value: ca },
            RegOp::AnalogWrite { reg: 0xc6, value: 0xf6 },
            RegOp::AnalogWrite { reg: 0x30, value: 0x20 },
        ],
{
    let ghost start = ops@;
    ops.push(RegOp::AnalogWrite { reg: 0x32, value: c9 });
    ops.push(RegOp::AnalogWrite { reg: 0x31, value: ca });
    ops.push(RegOp::AnalogWrite { reg: 0xc6, value: 0xf6 });
    ops.push(RegOp::AnalogWrite { reg: 0x30, value: 0x20 });
    assert(ops@ =~= start + seq![
        RegOp::AnalogWrite { reg: 0x32, value: c9 },
        RegOp::AnalogWrite { reg: 0x31, value: ca },
        RegOp::AnalogWrite { reg: 0xc6, value: 0xf6 },
        RegOp::AnalogWrite { reg: 0x30, value: 0x20 },
    ]);
}

/// The register values the crystal kick saves and puts back: clock
/// select, 32 kHz pad control, PWM max and compare ticks, PWM data.
#[derive(Clone, Copy, Debug, PartialEq, Eq, Structural)]
pub struct KickSaved {
    pub clk_sel: u8,
    pub pad_ctrl: u8,
    pub pwm_max: u16,
    pub pwm_cmp: u16,
    pub pwm_data: u8,
}

/// The crystal kick: a 16 MHz clock and a PWM square wave on the 32 kHz
/// pad for 5 ms, the crystal bias set, then every saved register put back.
pub open spec fn ext_32k_kick_ops(saved: KickSaved) -> Seq<RegOp> {
    seq![
        RegOp::Write8 { addr: 0x0080_0066, value: 0x43 },
        RegOp::Write8 { addr: 0x0080_0596, value: saved.pad_ctrl & !0x08u8 },
        RegOp::Write16 { addr: 0x0080_0798, value: 0x0001 },
        RegOp::Write16 { addr: 0x0080_079a, value: 0x0002 },
        RegOp::Write8 { addr: 0x0080_0780, value: 0x02 },
        RegOp::Write8 { addr: 0x0080_0782, value: 0xf3 },
        RegOp::DelayUs { us: 5_000 },
        RegOp::AnalogWrite { reg: 0x03, value: 0x4f },
        RegOp::Write8 { addr: 0x0080_0066, value: saved.clk_sel },
        RegOp::Write8 { addr: 0x0080_0596, value: saved.pad_ctrl },
        RegOp::Write16 { addr: 0x0080_0798, value: saved.pwm_max },
        RegOp::Write16 { addr: 0x0080_079a, value: saved.pwm_cmp },
        RegOp::Write8 { addr: 0x0080_0780, value: saved.pwm_data },
    ]
}

pub fn ext_32k_kick_vendor_like(ops: &mut Vec<RegOp>, saved: KickSaved)
    ensures
        final(ops)@ == old(ops)@ + ext_32k_kick_ops(saved),
{
    let ghost start = ops@;
    ops.push(RegOp::Write8 { addr: 0x0080_0066, value: 0x43 });
    ops.push(RegOp::Write8 { addr: 0x0080_0596, value: saved.pad_ctrl & !0x08u8 });
    ops.push(RegOp::Write16 { addr: 0x0080_0798, value: 0x0001 });
    ops.push(RegOp::Write16 { addr: 0x0080_079a, value: 0x0002 });
    ops.push(RegOp::Write8 { addr: 0x0080_0780, value: 0x02 });
    ops.push(RegOp::Write8 { addr: 0x0080_0782, value: 0xf3 });
    ops.push(RegOp::DelayUs { us: 5_000 });
    ops.push(RegOp::AnalogWrite { reg: 0x03, value: 0x4f });
    ops.push(RegOp::Write8 { addr: 0x0080_0066, value: saved.clk_sel });
    ops.push(RegOp::Write8 { addr: 0x0080_0596, value: saved.pad_ctrl });
    ops.push(RegOp::Write16 { addr: 0x0080_0798, value: saved.pwm_max });
    ops.push(RegOp::Write16 { addr: 0x0080_079a, value: saved.pwm_cmp });
    ops.push(RegOp::Write8 { addr: 0x0080_0780, value: saved.pwm_data });
    assert(ops@ =~= start + ext_32k_kick_ops(saved));
}

/// Applies `config`: the analog 32 kHz setup (the caller then runs the RC
/// calibration or the crystal kick), the source selection, the resume and
/// crystal timings, and the 16 ticks-per-microsecond system timer rate.
pub fn apply_config(g: &mut PmGlobals, ops: &mut Vec<RegOp>, config: Config)
    ensures
        final(ops)@ == old(ops)@ + init_32k_ops(config.clock_32k),
        final(g).clock_32k_source == config.clock_32k,
        final(g).tick_32k_calib == calib_seed(config.clock_32k),
        final(g).r_delay_us.deep_r_delay_us == config.wakeup_timing.deep_r_delay_us,
        final(g).r_delay_us.suspend_ret_r_delay_us == config.wakeup_timing.suspend_ret_r_delay_us,
        final(g).suspend_delay_us == config.xtal_stable_timing.delay_us,
        final(g).xtal_stable_loopnum == config.xtal_stable_timing.loop_count,
        final(g).xtal_stable_suspend_nopnum == config.xtal_stable_timing.nop_count,
        final(g).sys_timer_per_us == 16,
{
    init_32k_source_ops(ops, config.clock_32k);
    select_32k_source(g, config.clock_32k);
    set_wakeup_timing(g, config.wakeup_timing);
    set_xtal_stable_timing(g, config.xtal_stable_timing);
    sync_sys_tick_per_us(g, 16);
}

/// The 32 kHz clock rate of `source`.
pub open spec fn hz_of(source: Clock32kSource) -> u32 {
    match source {
        Clock32kSource::InternalRc => RC_32K_HZ,
        Clock32kSource::ExternalCrystal => XTAL_32K_HZ,
    }
}

pub fn hz_32k(source: Clock32kSource) -> (hz: u32)
    ensures
        hz == hz_of(source),
{
    match source {
        Clock32kSource::InternalRc => RC_32K_HZ,
        Clock32kSource::ExternalCrystal => XTAL_32K_HZ,
    }
}

/// Sleeps up to 230 s take the system-timer path, longer ones the 32 kHz
/// long-sleep path.
pub fn sleep_ms_kind(duration_ms: u32) -> (k: SleepMsKind)
    ensures
        k == (if duration_ms > PM_NORMAL_SLEEP_MAX_MS { SleepMsKind::Long } else { SleepMsKind::Short }),
{
    if duration_ms > PM_NORMAL_SLEEP_MAX_MS {
        SleepMsKind::Long
    } else {
        SleepMsKind::Short
    }
}

pub open spec fn clamp_u32(x: int) -> u32 {
    if x > u32::MAX { u32::MAX } else { x as u32 }
}

/// Milliseconds to 32 kHz ticks, at least one tick.
pub fn duration_ms_to_32k_ticks(duration_ms: u32, source: Clock32kSource) -> (t: u32)
    ensures
        t == (if duration_ms as int * (hz_of(source) as int) / 1000 < 1 { 1 } else { clamp_u32(
            duration_ms as int * (hz_of(source) as int) / 1000,
        ) as int }),
{
    let hz = hz_32k(source) as u64;
    assert(duration_ms as int * hz <= u32::MAX * 32768) by (nonlinear_arith)
        requires
            hz <= 32768,
            duration_ms <= u32::MAX,
    ;
    let ticks = (duration_ms as u64) * hz / 1000;
    let at_least_one = if ticks < 1 { 1 } else { ticks };
    if at_least_one > u32::MAX as u64 {
        u32::MAX
    } else {
        at_least_one as u32
    }
}

/// 32 kHz ticks to 16 MHz system ticks, rounded down and capped.
pub fn ticks_32k_to_sys_ticks(ticks_32k: u32, source: Clock32kSource) -> (t: u32)
    ensures
        t == clamp_u32(ticks_32k as int * (SYS_TICK_HZ as int) / (hz_of(source) as int)),
{
    let hz = hz_32k(source) as u64;
    let sys_hz = SYS_TICK_HZ as u64;
    assert(ticks_32k as int * sys_hz <= u32::MAX * 16_000_000) by (nonlinear_arith)
        requires
            sys_hz == 16_000_000,
            ticks_32k <= u32::MAX,
    ;
    let sys_ticks = (ticks_32k as u64) * sys_hz / hz;
    if sys_ticks > u32::MAX as u64 {
        u32::MAX
    } else {
        sys_ticks as u32
    }
}

/// 16 MHz system ticks to 32 kHz ticks, rounded down.
pub fn sys_ticks_to_32k_ticks(sys_ticks: u32, source: Clock32kSource) -> (t: u32)
    ensures
        t == clamp_u32(sys_ticks as int * (hz_of(source) as int) / (SYS_TICK_HZ as int)),
{
    let hz = hz_32k(source) as u64;
    let sys_hz = SYS_TICK_HZ as u64;
    assert(sys_ticks as int * hz <= u32::MAX * 32768) by (nonlinear_arith)
        requires
            hz <= 32768,
            sys_ticks <= u32::MAX,
    ;
    let ticks_32k = (sys_ticks as u64) * hz / sys_hz;
    if ticks_32k > u32::MAX as u64 {
        u32::MAX
    } else {
        ticks_32k as u32
    }
}

/// Converting 32 kHz ticks to system ticks and back loses less than one
/// 32 kHz tick, and never gains one.
pub proof fn lemma_tick_round_trip(ticks_32k: u32, source: Clock32kSource)
    requires
        ticks_32k as int * (SYS_TICK_HZ as int) / (hz_of(source) as int) <= u32::MAX,
    ensures
        ({
            let sys = clamp_u32(ticks_32k as int * (SYS_TICK_HZ as int) / (hz_of(source) as int));
            let back = clamp_u32(sys as int * (hz_of(source) as int) / (SYS_TICK_HZ as int));
            back <= ticks_32k && ticks_32k <= back + 1
        }),
{
    let hz = hz_of(source) as int;
    let t = ticks_32k as int;
    let s = t * 16_000_000 / hz;
    assert(s * hz <= t * 16_000_000 < s * hz + hz) by (nonlinear_arith)
        requires
            hz > 0,
            s == t * 16_000_000 / hz,
    ;
    let b = s * hz / 16_000_000;
    assert(b * 16_000_000 <= s * hz < b * 16_000_000 + 16_000_000) by (nonlinear_arith)
        requires
            b == s * hz / 16_000_000,
            s * hz >= 0,
    ;
    assert(b <= t && t <= b + 1) by (nonlinear_arith)
        requires
            b * 16_000_000 <= s * hz,
            s * hz < b * 16_000_000 + 16_000_000,
            s * hz <= t * 16_000_000,
            t * 16_000_000 < s * hz + hz,
            hz <= 32768,
            hz > 0,
    ;
}

/// The wake-status bits in analog 0x44 are clear, so the sleep may start.
pub fn wake44_gate_ready(wake44: u8) -> (b: bool)
    ensures
        b == ((wake44 & 0x0f) == 0),
{
    (wake44 & WAKEUP_STATUS_ALL) == 0
}

/// System tick reconstructed after a sleep on the RC clock: the 32 kHz
/// ticks since the sleep started, scaled by the calibration (per 16
/// cycles), added to the tick at which it started.
pub open spec fn recover_rc(g: PmGlobals, now_tick_32k: u32) -> u32 {
    let d = (now_tick_32k as int - g.tick_32k_cur as int) % 0x1_0000_0000;
    if g.pm_long_suspend != 0 {
        ((g.tick_cur + ((d / 16) * g.tick_32k_calib) % 0x1_0000_0000) % 0x1_0000_0000) as u32
    } else {
        ((g.tick_cur + ((d * g.tick_32k_calib) % 0x1_0000_0000) / 16) % 0x1_0000_0000) as u32
    }
}

/// The same on the crystal: 15625 system ticks per 32 cycles.
pub open spec fn recover_xtal(g: PmGlobals, now_tick_32k: u32) -> u32 {
    let d = (now_tick_32k as int - g.tick_32k_cur as int) % 0x1_0000_0000;
    if g.pm_long_suspend != 0 {
        ((g.tick_cur + ((d / 32) * 15625) % 0x1_0000_0000) % 0x1_0000_0000) as u32
    } else {
        ((g.tick_cur + ((d * 15625) % 0x1_0000_0000) / 32) % 0x1_0000_0000) as u32
    }
}

pub fn pm_tim_recover_32k_rc(g: &PmGlobals, now_tick_32k: u32) -> (t: u32)
    ensures
        t == recover_rc(*g, now_tick_32k),
{
    let d = now_tick_32k.wrapping_sub(g.tick_32k_cur);
    if g.pm_long_suspend != 0 {
        g.tick_cur.wrapping_add((d / 16).wrapping_mul(g.tick_32k_calib as u32))
    } else {
        g.tick_cur.wrapping_add(d.wrapping_mul(g.tick_32k_calib as u32) / 16)
    }
}

pub fn pm_tim_recover_32k_xtal(g: &PmGlobals, now_tick_32k: u32) -> (t: u32)
    ensures
        t == recover_xtal(*g, now_tick_32k),
{
    let d = now_tick_32k.wrapping_sub(g.tick_32k_cur);
    if g.pm_long_suspend != 0 {
        g.tick_cur.wrapping_add((d / 32).wrapping_mul(CRYSTAL32768_TICK_PER_32CYCLE))
    } else {
        g.tick_cur.wrapping_add(d.wrapping_mul(CRYSTAL32768_TICK_PER_32CYCLE) / 32)
    }
}

// ---------------------------------------------------------------------------
// Sleep requests
// ---------------------------------------------------------------------------

/// The routine that carries out a sleep up to a system tick.
#[derive(Clone, Copy, Debug, PartialEq, Eq, Structural)]
pub enum SleepPath {
    /// Suspend: a CPU stall on timer 1.
    Stall,
    /// Deep sleep timed by the RC 32 kHz clock.
    Rc32k,
    /// Deep sleep timed by the 32.768 kHz crystal.
    Xtal32k,
}

pub open spec fn path_of(mode: SleepMode, source: Clock32kSource) -> SleepPath {
    if mode == SleepMode::Suspend {
        SleepPath::Stall
    } else if source == Clock32kSource::InternalRc {
        SleepPath::Rc32k
    } else {
        SleepPath::Xtal32k
    }
}

pub fn sleep_until_tick_path(mode: SleepMode, source: Clock32kSource) -> (p: SleepPath)
    ensures
        p == path_of(mode, source),
{
    if mode.is_suspend() {
        SleepPath::Stall
    } else {
        match source {
            Clock32kSource::InternalRc => SleepPath::Rc32k,
            Clock32kSource::ExternalCrystal => SleepPath::Xtal32k,
        }
    }
}

/// A sleep until a wake source other than the timer: the sources without
/// the timer, or `None` (refused with `STATUS_GPIO_ERR_NO_ENTER_PM`) when
/// none is left or the mode is suspend.
pub fn sleep_until_wakeup_sources(mode: SleepMode, wakeup_src: WakeupSource) -> (r: Option<WakeupSource>)
    ensures
        ({
            let rest = wakeup_src.bits() & !WakeupSource::TIMER;
            &&& (rest == 0 || mode == SleepMode::Suspend) ==> r is None
            &&& !(rest == 0 || mode == SleepMode::Suspend) ==> (r matches Some(w) && w.bits() == rest)
        }),
{
    let rest = wakeup_src.without(WakeupSource::timer());
    if rest.is_empty() || mode.is_suspend() {
        return None;
    }
    Some(rest)
}

/// How a sleep of a number of milliseconds is carried out.
#[derive(Clone, Copy, Debug, PartialEq, Eq, Structural)]
pub enum SleepForMsPlan {
    /// Deep sleep on the crystal up to a system tick.
    XtalUntil { wakeup_tick: u32 },
    /// Long sleep of a number of 32 kHz ticks.
    Long32k { ticks_32k: u32 },
    /// Sleep (suspend) up to a system tick.
    UntilTick { wakeup_tick: u32 },
}

pub open spec fn ms_wakeup_tick(now: u32, duration_ms: u32, ticks_per_us: u32) -> u32 {
    ((now + clamp_u32(clamp_u32(duration_ms * 1000) * ticks_per_us)) % 0x1_0000_0000) as u32
}

pub open spec fn ms_to_32k(duration_ms: u32, source: Clock32kSource) -> u32 {
    if duration_ms as int * (hz_of(source) as int) / 1000 < 1 {
        1
    } else {
        clamp_u32(duration_ms as int * (hz_of(source) as int) / 1000)
    }
}

/// A sleep of `duration_ms` from tick `now`: deep sleeps run to a system
/// tick on the crystal and as a 32 kHz long sleep on the RC clock; suspend
/// runs to a system tick.
pub fn sleep_for_ms_plan(
    mode: SleepMode,
    source: Clock32kSource,
    duration_ms: u32,
    now: u32,
    ticks_per_us: u32,
) -> (p: SleepForMsPlan)
    ensures
        mode != SleepMode::Suspend && source == Clock32kSource::ExternalCrystal ==> p == (SleepForMsPlan::XtalUntil {
            wakeup_tick: ms_wakeup_tick(now, duration_ms, ticks_per_us),
        }),
        mode != SleepMode::Suspend && source == Clock32kSource::InternalRc ==> p == (SleepForMsPlan::Long32k {
            ticks_32k: ms_to_32k(duration_ms, source),
        }),
        mode == SleepMode::Suspend ==> p == (SleepForMsPlan::UntilTick {
            wakeup_tick: ms_wakeup_tick(now, duration_ms, ticks_per_us),
        }),
{
    let wakeup_tick = now.wrapping_add(sat_mul_u32(sat_mul_u32(duration_ms, 1000), ticks_per_us));
    if !mode.is_suspend() {
        if source == Clock32kSource::ExternalCrystal {
            return SleepForMsPlan::XtalUntil { wakeup_tick };
        }
        return SleepForMsPlan::Long32k { ticks_32k: duration_ms_to_32k_ticks(duration_ms, source) };
    }
    SleepForMsPlan::UntilTick { wakeup_tick }
}

/// `a * b`, saturated at `u32::MAX`.
pub fn sat_mul_u32(a: u32, b: u32) -> (r: u32)
    ensures
        r == clamp_u32(a * b),
{
    assert(a as int * b as int <= u32::MAX as int * u32::MAX as int) by (nonlinear_arith)
        requires
            a <= u32::MAX,
            b <= u32::MAX,
    ;
    let p = (a as u64) * (b as u64);
    if p > u32::MAX as u64 {
        u32::MAX
    } else {
        p as u32
    }
}

/// A long sleep lasts at least one 32 kHz tick.
pub fn long_sleep_duration(duration_ticks_32k: u32) -> (d: u32)
    ensures
        d == (if duration_ticks_32k < 1 { 1 } else { duration_ticks_32k }),
{
    if duration_ticks_32k < 1 {
        1
    } else {
        duration_ticks_32k
    }
}

/// The state changes and register writes before a deep sleep: the start
/// ticks and long-sleep flag are recorded, the wake mask set, and with the
/// timer as a source the wake-up tick programmed (for a long sleep, the
/// 32 kHz target converted to a system tick).
pub fn prepare_sleep(
    g: &mut PmGlobals,
    ops: &mut Vec<RegOp>,
    wakeup_src: WakeupSource,
    wakeup_tick: u32,
    source: Clock32kSource,
    long_sleep: bool,
    now: u32,
    now_32k: u32,
)
    ensures
        *final(g) == (PmGlobals {
            tick_cur: now,
            tick_32k_cur: now_32k,
            pm_long_suspend: if long_sleep { 1u8 } else { 0u8 },
            ..*old(g)
        }),
        ({
            let mask_op = RegOp::Write32 { addr: REG_MCU_WAKEUP_MASK, value: wakeup_src.bits() as u32 };
            let program = if long_sleep {
                ((now + clamp_u32(
                    ((wakeup_tick as int - now_32k as int) % 0x1_0000_0000) * (SYS_TICK_HZ as int) / (hz_of(
                        source,
                    ) as int),
                )) % 0x1_0000_0000) as u32
            } else {
                wakeup_tick
            };
            &&& (wakeup_src.bits() & WakeupSource::TIMER) == WakeupSource::TIMER ==> final(ops)@ == old(ops)@ + seq![
                mask_op,
                RegOp::Write32 { addr: REG_SYSTEM_WAKEUP_TICK, value: program },
            ]
            &&& (wakeup_src.bits() & WakeupSource::TIMER) != WakeupSource::TIMER ==> final(ops)@ == old(ops)@.push(mask_op)
        }),
{
    let ghost start = ops@;
    g.set_tick_cur(now);
    g.set_tick_32k_cur(now_32k);
    g.set_pm_long_suspend(long_sleep);
    ops.push(RegOp::Write32 { addr: REG_MCU_WAKEUP_MASK, value: wakeup_src.raw() as u32 });
    if wakeup_src.contains(WakeupSource::timer()) {
        let program_tick = if long_sleep {
            let delta_32k = wakeup_tick.wrapping_sub(g.current_tick_32k_cur());
            g.current_tick_cur().wrapping_add(ticks_32k_to_sys_ticks(delta_32k, source))
        } else {
            wakeup_tick
        };
        ops.push(RegOp::Write32 { addr: REG_SYSTEM_WAKEUP_TICK, value: program_tick });
    }
}

/// The timer-1 stall of a suspend: the wake mask (timer 1 when the timer is
/// a source) and the interval in microseconds until `wakeup_tick`, at least
/// one.
pub fn suspend_stall_params(wakeup_src: WakeupSource, wakeup_tick: u32, now: u32, ticks_per_us: u32) -> (r: (u32, u32))
    requires
        ticks_per_us > 0,
    ensures
        r.0 == (if (wakeup_src.bits() & WakeupSource::TIMER) == WakeupSource::TIMER { 2u32 } else { 0u32 }),
        ({
            let us = ((wakeup_tick as int - now as int) % 0x1_0000_0000) / (ticks_per_us as int);
            r.1 == (if us < 1 { 1 } else { us })
        }),
{
    let delta_ticks = wakeup_tick.wrapping_sub(now);
    let q = delta_ticks / ticks_per_us;
    let interval_us = if q < 1 { 1 } else { q };
    let stall_mask: u32 = if wakeup_src.contains(WakeupSource::timer()) { 0x02 } else { 0 };
    (stall_mask, interval_us)
}

/// The result word of a suspend: the stall's wake status with the
/// entered-suspend flag.
pub fn suspend_result(wake: u32) -> (r: u32)
    ensures
        r == wake | STATUS_ENTER_SUSPEND,
{
    wake | STATUS_ENTER_SUSPEND
}

/// The power manager with its configuration.
#[derive(Clone, Copy, Debug, PartialEq, Eq, Structural)]
pub struct Pm {
    config: Config,
}

impl Pm {
    pub closed spec fn spec_config(self) -> Config {
        self.config
    }

    /// Applies `config` (see `apply_config`).
    pub fn init(g: &mut PmGlobals, ops: &mut Vec<RegOp>, config: Config) -> (pm: Self)
        ensures
            pm.spec_config() == config,
            final(ops)@ == old(ops)@ + init_32k_ops(config.clock_32k),
            final(g).clock_32k_source == config.clock_32k,
    {
        apply_config(g, ops, config);
        Pm { config }
    }

    pub fn reconfigure(&mut self, g: &mut PmGlobals, ops: &mut Vec<RegOp>, config: Config)
        ensures
            final(self).spec_config() == config,
            final(ops)@ == old(ops)@ + init_32k_ops(config.clock_32k),
            final(g).clock_32k_source == config.clock_32k,
    {
        apply_config(g, ops, config);
        self.config = config;
    }

    pub fn config(&self) -> (c: Config)
        ensures
            c == self.spec_config(),
    {
        self.config
    }

    pub fn wake_info(&self, g: &PmGlobals) -> (w: WakeInfo)
        ensures
            w.origin == origin_of(startup_state_of(g.pm_param.mcu_status)),
            w.source == WakeupStatus(g.pm_param.wakeup_src),
            w.is_pad_wakeup == (g.pm_param.is_pad_wakeup != 0),
    {
        wake_info(g)
    }

    /// Lets `raw_pin` wake the chip at `level` (or stop it when not
    /// `enabled`).
    pub fn configure_gpio_wakeup(&mut self, ops: &mut Vec<RegOp>, raw_pin: RawPin, level: WakeupLevel, enabled: bool)
        ensures
            ({
                let pin = raw_pin.value() as u32;
                let bit = ((pin / 256) % 256) as u8;
                let port = (pin % 256) as u8;
                final(ops)@ == old(ops)@ + seq![
                    if level == WakeupLevel::Low {
                        RegOp::AnalogModify { reg: ((port + 0x21) % 256) as u8, clear: bit, set: 0 }
                    } else {
                        RegOp::AnalogModify { reg: ((port + 0x21) % 256) as u8, clear: 0, set: bit }
                    },
                    if !enabled {
                        RegOp::AnalogModify { reg: ((port + 0x27) % 256) as u8, clear: bit, set: 0 }
                    } else {
                        RegOp::AnalogModify { reg: ((port + 0x27) % 256) as u8, clear: 0, set: bit }
                    },
                ]
            }),
    {
        configure_gpio_wakeup(ops, raw_pin, level, enabled);
    }
}

/// Registers the routine a sleep calls before it suspends.
#[allow(non_snake_case)]
pub fn bls_pm_registerFuncBeforeSuspend(g: &mut PmGlobals, func: usize)
    ensures
        *final(g) == (PmGlobals { func_before_suspend: func, ..*old(g) }),
{
    g.set_func_before_suspend(func);
}

/// Stores the resume delays and recomputes the early-wakeup times.
pub fn pm_set_wakeup_time_param(g: &mut PmGlobals, param: PmRDelayUs)
    ensures
        *final(g) == (PmGlobals {
            r_delay_us: param,
            early_wakeup_time_us: early_times(param, old(g).suspend_delay_us),
            ..*old(g)
        }),
{
    g.set_wakeup_time_param(param);
}

/// Stores the crystal settle parameters and recomputes the suspend and
/// minimum early-wakeup times.
pub fn pm_set_xtal_stable_timer_param(g: &mut PmGlobals, delay_us: u32, loopnum: u32, nopnum: u32)
    ensures
        ({
            let suspend = ((old(g).r_delay_us.suspend_ret_r_delay_us + 0x00e6 + delay_us) % 0x1_0000) as u16;
            *final(g) == (PmGlobals {
                xtal_stable_suspend_nopnum: nopnum,
                xtal_stable_loopnum: loopnum,
                suspend_delay_us: delay_us,
                early_wakeup_time_us: PmEarlyWakeupTimeUs {
                    suspend,
                    min: early_min(old(g).early_wakeup_time_us.deep, suspend),
                    ..old(g).early_wakeup_time_us
                },
                ..*old(g)
            })
        }),
{
    g.set_xtal_stable_timer_param(delay_us, loopnum, nopnum);
}

/// Makes pad `pin` (port in the low byte, pad mask in the next) wake the
/// chip at polarity `pol`, or stop it when `en` is 0.
pub fn cpu_set_gpio_wakeup(ops: &mut Vec<RegOp>, pin: u32, pol: u32, en: i32)
    ensures
        ({
            let bit = ((pin / 256) % 256) as u8;
            let port = (pin % 256) as u8;
            final(ops)@ == old(ops)@ + seq![
                if pol == 0 {
                    RegOp::AnalogModify { reg: ((port + 0x21) % 256) as u8, clear: bit, set: 0 }
                } else {
                    RegOp::AnalogModify { reg: ((port + 0x21) % 256) as u8, clear: 0, set: bit }
                },
                if en == 0 {
                    RegOp::AnalogModify { reg: ((port + 0x27) % 256) as u8, clear: bit, set: 0 }
                } else {
                    RegOp::AnalogModify { reg: ((port + 0x27) % 256) as u8, clear: 0, set: bit }
                },
            ]
        }),
{
    startup_cpu_set_gpio_wakeup(ops, pin, pol, en);
}

/// Lets `raw_pin` wake the chip at `level` (or stop it when not `enabled`).
pub fn configure_gpio_wakeup(ops: &mut Vec<RegOp>, raw_pin: RawPin, level: WakeupLevel, enabled: bool)
    ensures
        ({
            let pin = raw_pin.value() as u32;
            let bit = ((pin / 256) % 256) as u8;
            let port = (pin % 256) as u8;
            final(ops)@ == old(ops)@ + seq![
                if level == WakeupLevel::Low {
                    RegOp::AnalogModify { reg: ((port + 0x21) % 256) as u8, clear: bit, set: 0 }
                } else {
                    RegOp::AnalogModify { reg: ((port + 0x21) % 256) as u8, clear: 0, set: bit }
                },
                if !enabled {
                    RegOp::AnalogModify { reg: ((port + 0x27) % 256) as u8, clear: bit, set: 0 }
                } else {
                    RegOp::AnalogModify { reg: ((port + 0x27) % 256) as u8, clear: 0, set: bit }
                },
            ]
        }),
{
    startup_cpu_set_gpio_wakeup(ops, raw_pin.as_u16() as u32, level.code(), if enabled { 1 } else { 0 });
}

// ---------------------------------------------------------------------------
// Sleep entry on the 32 kHz timer
// ---------------------------------------------------------------------------

/// What a timed sleep does first, given the ticks `dt` to its target.
#[derive(Clone, Copy, Debug, PartialEq, Eq, Structural)]
pub enum SleepEntry {
    /// The target is in the past: report the latched wake status.
    Expired,
    /// The target is too close to sleep: poll the wake status until it.
    BusyWait,
    /// Sleep, with the long-sleep flag as given.
    Enter { long_suspend: bool },
}

/// The first decision of an RC-timed sleep: targets more than 0xE0000000
/// ticks ahead count as passed; targets closer than the minimum early
/// wake-up are waited out; sleeps over 0xff << 20 ticks are long.
pub fn timer_sleep_entry_rc(dt: u32, min_wakeup_us: u16) -> (e: SleepEntry)
    ensures
        dt > 0xE000_0000 ==> e == SleepEntry::Expired,
        dt <= 0xE000_0000 && dt < min_wakeup_us as int * 16 ==> e == SleepEntry::BusyWait,
        dt <= 0xE000_0000 && dt >= min_wakeup_us as int * 16 ==> e == (SleepEntry::Enter {
            long_suspend: dt > 0x0FF0_0000,
        }),
{
    if dt > 0xE000_0000 {
        return SleepEntry::Expired;
    }
    let ew = (min_wakeup_us as u32) * 16;
    if dt >= ew {
        SleepEntry::Enter { long_suspend: dt > 0x0FF0_0000 }
    } else {
        SleepEntry::BusyWait
    }
}

/// The same on the crystal, where every timed sleep counts as long (the
/// timer being a wake source).
pub fn timer_sleep_entry_xtal(dt: u32, min_wakeup_us: u16) -> (e: SleepEntry)
    ensures
        dt > 0xE000_0000 ==> e == SleepEntry::Expired,
        dt <= 0xE000_0000 && dt < min_wakeup_us as int * 16 ==> e == SleepEntry::BusyWait,
        dt <= 0xE000_0000 && dt >= min_wakeup_us as int * 16 ==> e == (SleepEntry::Enter { long_suspend: true }),
{
    if dt > 0xE000_0000 {
        return SleepEntry::Expired;
    }
    if dt >= (min_wakeup_us as u32) * 16 {
        SleepEntry::Enter { long_suspend: true }
    } else {
        SleepEntry::BusyWait
    }
}

/// Whether the busy wait of a short sleep ends: the target reached or a
/// wake source latched.
pub fn short_wait_done(now: u32, start: u32, dt: u32, status: u8) -> (b: bool)
    ensures
        b == ((now as int - start as int) % 0x1_0000_0000 >= dt || status != 0),
{
    now.wrapping_sub(start) >= dt || status != 0
}

/// The programmed wake-up target: `early_us` microseconds before
/// `wakeup_tick`.
pub fn early_target(wakeup_tick: u32, early_us: u16) -> (t: u32)
    ensures
        t == ((wakeup_tick as int - early_us as int * 16) % 0x1_0000_0000) as u32,
{
    wakeup_tick.wrapping_sub((early_us as u32) * 16)
}

/// The early-wakeup time an RC-timed sleep uses: the retention one for any
/// deep mode, the suspend one otherwise.
pub fn rc_early_us(g: &PmGlobals, mode_byte: u8) -> (e: u16)
    ensures
        e == (if mode_byte != 0 { g.early_wakeup_time_us.deep_ret } else { g.early_wakeup_time_us.suspend }),
{
    if mode_byte != 0 {
        g.early_wakeup_time_us.deep_ret
    } else {
        g.early_wakeup_time_us.suspend
    }
}

/// The early-wakeup time a crystal-timed sleep uses: the deep one for deep
/// sleep, the suspend one otherwise.
pub fn xtal_early_us(g: &PmGlobals, mode_byte: u8) -> (e: u16)
    ensures
        e == (if mode_byte == 0x80 { g.early_wakeup_time_us.deep } else { g.early_wakeup_time_us.suspend }),
{
    if mode_byte == 0x80 {
        g.early_wakeup_time_us.deep
    } else {
        g.early_wakeup_time_us.suspend
    }
}

/// The system tick 0x230 ticks after `now` that a sleep records as its
/// start.
pub fn sleep_start_tick(now: u32) -> (t: u32)
    ensures
        t == ((now as int + 0x230) % 0x1_0000_0000) as u32,
{
    now.wrapping_add(0x8c * 4)
}

/// The analog and digital writes that set up an RC-timed sleep of
/// `mode_byte` on `wakeup_src`.
pub open spec fn rc_sleep_setup_ops(mode_byte: u8, wakeup_src: u8, tl_multi_addr: u8) -> Seq<RegOp> {
    let no_ret = mode_byte & 0x7f;
    let cmp: u8 = if (wakeup_src & PM_WAKEUP_COMPARATOR_BITS) != 0 { 1 } else { 0 };
    let timer: u8 = if (wakeup_src & PM_WAKEUP_TIMER_BITS) != 0 { 1 } else { 0 };
    let any: u8 = cmp | timer;
    let (an7, a2c_high, a2b, a7e): (u8, u8, u8, u8) = if no_ret != 0 {
        (5, 0x40, 0xde, mode_byte)
    } else if mode_byte == 0 {
        (4, 0x96, 0x5e, 0)
    } else {
        (5, 0xc0, 0xde, mode_byte)
    };
    seq![
        RegOp::AnalogWrite { reg: 0x26, value: wakeup_src },
        RegOp::AnalogWrite { reg: 0x44, value: WAKEUP_STATUS_ALL },
        RegOp::Write8 { addr: 0x0080_0066, value: 0 },
    ] + (if no_ret != 0 {
        seq![
            RegOp::AnalogModify { reg: 0x02, clear: 0x07, set: 0x05 },
            RegOp::Write8 { addr: 0x0080_063e, value: tl_multi_addr },
        ]
    } else if mode_byte == 0 {
        seq![RegOp::AnalogWrite { reg: 0x04, value: 0x48 }, RegOp::AnalogWrite { reg: 0x7e, value: 0x00 }]
    } else {
        Seq::empty()
    }) + seq![
        RegOp::AnalogWrite { reg: 0x7e, value: a7e },
        RegOp::AnalogWrite { reg: 0x2b, value: a2b },
        RegOp::AnalogWrite { reg: 0x2c, value: 0x16u8 | a2c_high | any | (cmp << 3u8) },
        RegOp::AnalogModify { reg: 0x07, clear: 0x07, set: an7 },
    ] + (if no_ret == 0 {
        seq![RegOp::Write8 { addr: 0x0080_0602, value: 0x08 }, RegOp::AnalogWrite { reg: 0x7f, value: 1 }]
    } else {
        seq![RegOp::AnalogWrite { reg: 0x7f, value: 0 }]
    })
}

pub fn rc_sleep_setup(ops: &mut Vec<RegOp>, mode_byte: u8, wakeup_src: u8, tl_multi_addr: u8)
    ensures
        final(ops)@ == old(ops)@ + rc_sleep_setup_ops(mode_byte, wakeup_src, tl_multi_addr),
{
    let ghost start = ops@;
    ops.push(RegOp::AnalogWrite { reg: 0x26, value: wakeup_src });
    ops.push(RegOp::AnalogWrite { reg: 0x44, value: WAKEUP_STATUS_ALL });
    ops.push(RegOp::Write8 { addr: 0x0080_0066, value: 0 });
    let no_ret = mode_byte & 0x7f;
    let (an7, a2c_high, a2b, a7e): (u8, u8, u8, u8) = if no_ret != 0 {
        ops.push(RegOp::AnalogModify { reg: 0x02, clear: 0x07, set: 0x05 });
        ops.push(RegOp::Write8 { addr: 0x0080_063e, value: tl_multi_addr });
        (5, 0x40, 0xde, mode_byte)
    } else if mode_byte == 0 {
        ops.push(RegOp::AnalogWrite { reg: 0x04, value: 0x48 });
        ops.push(RegOp::AnalogWrite { reg: 0x7e, value: 0x00 });
        (4, 0x96, 0x5e, 0)
    } else {
        (5, 0xc0, 0xde, mode_byte)
    };
    ops.push(RegOp::AnalogWrite { reg: 0x7e, value: a7e });
    ops.push(RegOp::AnalogWrite { reg: 0x2b, value: a2b });
    let cmp: u8 = if (wakeup_src & PM_WAKEUP_COMPARATOR_BITS) != 0 { 1 } else { 0 };
    let timer: u8 = if (wakeup_src & PM_WAKEUP_TIMER_BITS) != 0 { 1 } else { 0 };
    let any: u8 = cmp | timer;
    ops.push(RegOp::AnalogWrite { reg: 0x2c, value: 0x16u8 | a2c_high | any | (cmp << 3u8) });
    ops.push(RegOp::AnalogModify { reg: 0x07, clear: 0x07, set: an7 });
    if no_ret == 0 {
        ops.push(RegOp::Write8 { addr: 0x0080_0602, value: 0x08 });
        ops.push(RegOp::AnalogWrite { reg: 0x7f, value: 1 });
    } else {
        ops.push(RegOp::AnalogWrite { reg: 0x7f, value: 0 });
    }
    assert(ops@ =~= start + rc_sleep_setup_ops(mode_byte, wakeup_src, tl_multi_addr));
}

/// The RC sleep timer calibration registers: analog 0x20 from the
/// calibration, 0x1f from the retention resume delay `sr`.
pub open spec fn rc_calib_values(calib: u16, sr: u32) -> (u8, u8) {
    let half = (calib / 2) as u32;
    (
        ((0x7f - (0xfa00 + half) / (calib as int)) % 0x1_0000_0000) as u8,
        ((((sr * 128) % 0x1_0000_0000 + half) % 0x1_0000_0000) / (calib as int)) as u8,
    )
}

pub fn rc_sleep_calibration(ops: &mut Vec<RegOp>, mode_byte: u8, calib: u16, sr: u32)
    requires
        calib != 0,
    ensures
        final(ops)@ == old(ops)@ + (if mode_byte != 0 {
            seq![RegOp::AnalogModify { reg: 0x3c, clear: 0, set: 0x02 }]
        } else {
            Seq::empty()
        }) + seq![
            RegOp::AnalogWrite { reg: 0x20, value: rc_calib_values(calib, sr).0 },
            RegOp::AnalogWrite { reg: 0x1f, value: rc_calib_values(calib, sr).1 },
        ],
{
    let ghost start = ops@;
    let half = (calib / 2) as u32;
    if mode_byte != 0 {
        ops.push(RegOp::AnalogModify { reg: 0x3c, clear: 0, set: 0x02 });
    }
    let a20 = 0x7f_u32.wrapping_sub((0xfa00u32 + half) / (calib as u32)) as u8;
    let a1f = ((sr.wrapping_mul(128)).wrapping_add(half) / (calib as u32)) as u8;
    ops.push(RegOp::AnalogWrite { reg: 0x20, value: a20 });
    ops.push(RegOp::AnalogWrite { reg: 0x1f, value: a1f });
    assert(ops@ =~= start + (if mode_byte != 0 {
        seq![RegOp::AnalogModify { reg: 0x3c, clear: 0, set: 0x02 }]
    } else {
        Seq::empty()
    }) + seq![
        RegOp::AnalogWrite { reg: 0x20, value: rc_calib_values(calib, sr).0 },
        RegOp::AnalogWrite { reg: 0x1f, value: rc_calib_values(calib, sr).1 },
    ]);
}

/// Subtraction modulo 2^32.
pub open spec fn wsub(a: u32, b: u32) -> u32 {
    vstd::wrapping::u32_specs::wrapping_sub(a, b)
}

/// Addition modulo 2^32.
pub open spec fn wadd(a: u32, b: u32) -> u32 {
    vstd::wrapping::u32_specs::wrapping_add(a, b)
}

/// Multiplication modulo 2^32.
pub open spec fn wmul(a: u32, b: u32) -> u32 {
    vstd::wrapping::u32_specs::wrapping_mul(a, b)
}

/// The 32 kHz tick at which an RC-timed sleep ends: the system ticks from
/// the recorded start to `target`, converted with the calibration (per 16
/// cycles), after the recorded 32 kHz start tick.
pub open spec fn rc_wake_tick(target: u32, tick_cur: u32, tick_32k_cur: u32, calib: u16, long: bool) -> u32 {
    let d = wsub(target, tick_cur);
    if long {
        wadd(wsub(target, wmul(d / (calib as u32), 16)), tick_32k_cur)
    } else {
        wadd(wsub(target, wadd(wmul(d, 16), (calib / 2) as u32) / (calib as u32)), tick_32k_cur)
    }
}

pub fn rc_sleep_wake_tick(target: u32, tick_cur: u32, tick_32k_cur: u32, calib: u16, long: bool) -> (t: u32)
    requires
        calib != 0,
    ensures
        t == rc_wake_tick(target, tick_cur, tick_32k_cur, calib, long),
{
    let d = target.wrapping_sub(tick_cur);
    let c = calib as u32;
    if long {
        let q = d / c;
        let back = q.wrapping_mul(16);
        let t0 = target.wrapping_sub(back);
        t0.wrapping_add(tick_32k_cur)
    } else {
        let x = d.wrapping_mul(16);
        let y = x.wrapping_add((calib / 2) as u32);
        let q = y / c;
        let t0 = target.wrapping_sub(q);
        t0.wrapping_add(tick_32k_cur)
    }
}

/// The sleep timer writes that arm the wake-up at 32 kHz tick `wake_tick`
/// and wait for the timer to take it.
pub open spec fn sleep_timer_ops(wake_tick: u32) -> Seq<RegOp> {
    seq![
        RegOp::Write8 { addr: 0x0080_074c, value: 0x2c },
        RegOp::Write32 { addr: 0x0080_0754, value: wake_tick },
        RegOp::Write8 { addr: 0x0080_074f, value: 0x08 },
        RegOp::DelayCycles { cycles: 10 },
        RegOp::DelayCycles { cycles: 6 },
        RegOp::WaitClear8 { addr: 0x0080_074f, mask: 0x08 },
        RegOp::Write8 { addr: 0x0080_074c, value: 0x20 },
    ]
}

pub fn arm_sleep_timer(ops: &mut Vec<RegOp>, wake_tick: u32)
    ensures
        final(ops)@ == old(ops)@ + sleep_timer_ops(wake_tick),
{
    let ghost start = ops@;
    ops.push(RegOp::Write8 { addr: 0x0080_074c, value: 0x2c });
    ops.push(RegOp::Write32 { addr: 0x0080_0754, value: wake_tick });
    ops.push(RegOp::Write8 { addr: 0x0080_074f, value: 0x08 });
    ops.push(RegOp::DelayCycles { cycles: 10 });
    ops.push(RegOp::DelayCycles { cycles: 6 });
    ops.push(RegOp::WaitClear8 { addr: 0x0080_074f, mask: 0x08 });
    ops.push(RegOp::Write8 { addr: 0x0080_074c, value: 0x20 });
    assert(ops@ =~= start + sleep_timer_ops(wake_tick));
}

/// The system tick after an RC-timed sleep, from the 32 kHz tick `t32`
/// read on wake-up, and the 32 kHz bookkeeping tick 320 after it.
pub open spec fn rc_ticks_after_wake(cur: u32, cur32: u32, t32: u32, calib: u16, long: bool) -> (u32, u32) {
    let m = 0x1_0000_0000int;
    let d = (t32 as int - cur32 as int) % m;
    let upd = if long {
        ((cur + ((d / 16) * calib) % m) % m) as u32
    } else {
        ((cur + ((d * calib) % m) / 16) % m) as u32
    };
    (upd, ((upd + 320) % m) as u32)
}

pub fn rc_tick_after_wake(g: &mut PmGlobals, t32: u32, calib: u16)
    ensures
        ({
            let (t, t32k) = rc_ticks_after_wake(old(g).tick_cur, old(g).tick_32k_cur, t32, calib, old(g).pm_long_suspend != 0);
            *final(g) == (PmGlobals { tick_cur: t, tick_32k_cur: t32k, ..*old(g) })
        }),
{
    let cur = g.tick_cur;
    let cur32 = g.tick_32k_cur;
    let d = t32.wrapping_sub(cur32);
    let upd = if g.pm_long_suspend != 0 {
        cur.wrapping_add((d / 16).wrapping_mul(calib as u32))
    } else {
        cur.wrapping_add(d.wrapping_mul(calib as u32) / 16)
    };
    g.tick_cur = upd;
    g.tick_32k_cur = upd.wrapping_add(20 * 16);
}

/// The crystal sleep timer calibration registers: 0x20 fixed, 0x1f from
/// the retention resume delay `sr`.
pub open spec fn xtal_calib_1f(sr: u32) -> u8 {
    ((((sr * 256) % 0x1_0000_0000 + 7812) % 0x1_0000_0000) / 15625) as u8
}

/// The 32 kHz tick at which a crystal-timed sleep ends.
pub open spec fn xtal_wake_tick(target: u32, tick_cur: u32, tick_32k_cur: u32, long: bool) -> u32 {
    let d = wsub(target, tick_cur);
    if long {
        wadd(wsub(target, wmul(d / 15625, 32)), tick_32k_cur)
    } else {
        wadd(wsub(target, wadd(wmul(d, 32), 7812) / 15625), tick_32k_cur)
    }
}

pub fn xtal_sleep_wake_tick(target: u32, tick_cur: u32, tick_32k_cur: u32, long: bool) -> (t: u32)
    ensures
        t == xtal_wake_tick(target, tick_cur, tick_32k_cur, long),
{
    let d = target.wrapping_sub(tick_cur);
    if long {
        let q = d / CRYSTAL32768_TICK_PER_32CYCLE;
        let back = q.wrapping_mul(32);
        let t0 = target.wrapping_sub(back);
        t0.wrapping_add(tick_32k_cur)
    } else {
        let x = d.wrapping_mul(32);
        let y = x.wrapping_add(CRYSTAL32768_TICK_PER_32CYCLE / 2);
        let q = y / CRYSTAL32768_TICK_PER_32CYCLE;
        let t0 = target.wrapping_sub(q);
        t0.wrapping_add(tick_32k_cur)
    }
}

pub fn xtal_sleep_calibration(ops: &mut Vec<RegOp>, mode_byte: u8, sr: u32)
    ensures
        final(ops)@ == old(ops)@ + (if mode_byte == 0x80 {
            seq![RegOp::AnalogModify { reg: 0x3c, clear: 0, set: 0x02 }]
        } else {
            Seq::empty()
        }) + seq![RegOp::AnalogWrite { reg: 0x20, value: 0x77 }, RegOp::AnalogWrite { reg: 0x1f, value: xtal_calib_1f(sr) }],
{
    let ghost start = ops@;
    if mode_byte == 0x80 {
        ops.push(RegOp::AnalogModify { reg: 0x3c, clear: 0, set: 0x02 });
    }
    ops.push(RegOp::AnalogWrite { reg: 0x20, value: 0x77 });
    let v = (sr.wrapping_mul(256).wrapping_add(CRYSTAL32768_TICK_PER_32CYCLE / 2) / CRYSTAL32768_TICK_PER_32CYCLE) as u8;
    ops.push(RegOp::AnalogWrite { reg: 0x1f, value: v });
    assert(ops@ =~= start + (if mode_byte == 0x80 {
        seq![RegOp::AnalogModify { reg: 0x3c, clear: 0, set: 0x02 }]
    } else {
        Seq::empty()
    }) + seq![RegOp::AnalogWrite { reg: 0x20, value: 0x77 }, RegOp::AnalogWrite { reg: 0x1f, value: xtal_calib_1f(sr) }]);
}

/// The analog and digital writes that set up a crystal-timed sleep.
pub open spec fn xtal_sleep_setup_ops(mode_byte: u8, wakeup_src: u8, tl_multi_addr: u8) -> Seq<RegOp> {
    let no_ret = mode_byte & 0x7f;
    let timer = (wakeup_src & PM_WAKEUP_TIMER_BITS) != 0;
    let not_deep: u8 = if ((mode_byte as int - 0x80) % 256) != 0 { 1 } else { 0 };
    seq![
        RegOp::AnalogWrite { reg: 0x26, value: wakeup_src },
        RegOp::AnalogWrite { reg: 0x44, value: WAKEUP_STATUS_ALL },
        RegOp::Write8 { addr: 0x0080_0066, value: 0 },
    ] + (if no_ret != 0 {
        seq![
            RegOp::AnalogModify { reg: 0x02, clear: 0x07, set: 0x05 },
            RegOp::Write8 { addr: 0x0080_063e, value: tl_multi_addr },
            RegOp::AnalogWrite { reg: 0x7e, value: mode_byte },
            RegOp::AnalogWrite { reg: 0x2b, value: 0xde },
            RegOp::AnalogWrite { reg: 0x2c, value: 0xD6u8 | not_deep | (not_deep << 3u8) },
            RegOp::AnalogModify { reg: 0x07, clear: 0x07, set: 5 },
            RegOp::AnalogWrite { reg: 0x7f, value: 0 },
        ]
    } else {
        seq![
            RegOp::AnalogWrite { reg: 0x04, value: 0x48 },
            RegOp::AnalogWrite { reg: 0x7e, value: 0x00 },
            RegOp::AnalogWrite { reg: 0x2b, value: 0x5e },
            RegOp::AnalogWrite { reg: 0x2c, value: 0x80u8 | (if timer { 0x14u8 } else { 0x1du8 }) },
            RegOp::AnalogModify { reg: 0x07, clear: 0x07, set: 4 },
            RegOp::Write8 { addr: 0x0080_0602, value: 0x08 },
            RegOp::AnalogWrite { reg: 0x7f, value: 1 },
        ]
    })
}

pub fn xtal_sleep_setup(ops: &mut Vec<RegOp>, mode_byte: u8, wakeup_src: u8, tl_multi_addr: u8)
    ensures
        final(ops)@ == old(ops)@ + xtal_sleep_setup_ops(mode_byte, wakeup_src, tl_multi_addr),
{
    let ghost start = ops@;
    ops.push(RegOp::AnalogWrite { reg: 0x26, value: wakeup_src });
    ops.push(RegOp::AnalogWrite { reg: 0x44, value: WAKEUP_STATUS_ALL });
    ops.push(RegOp::Write8 { addr: 0x0080_0066, value: 0 });
    let no_ret = mode_byte & 0x7f;
    let timer = (wakeup_src & PM_WAKEUP_TIMER_BITS) != 0;
    if no_ret != 0 {
        ops.push(RegOp::AnalogModify { reg: 0x02, clear: 0x07, set: 0x05 });
        ops.push(RegOp::Write8 { addr: 0x0080_063e, value: tl_multi_addr });
        ops.push(RegOp::AnalogWrite { reg: 0x7e, value: mode_byte });
        ops.push(RegOp::AnalogWrite { reg: 0x2b, value: 0xde });
        let delta = mode_byte.wrapping_sub(0x80);
        let not_deep: u8 = if delta != 0 { 1 } else { 0 };
        ops.push(RegOp::AnalogWrite { reg: 0x2c, value: 0xD6u8 | not_deep | (not_deep << 3u8) });
        ops.push(RegOp::AnalogModify { reg: 0x07, clear: 0x07, set: 5 });
        ops.push(RegOp::AnalogWrite { reg: 0x7f, value: 0 });
    } else {
        ops.push(RegOp::AnalogWrite { reg: 0x04, value: 0x48 });
        ops.push(RegOp::AnalogWrite { reg: 0x7e, value: 0x00 });
        ops.push(RegOp::AnalogWrite { reg: 0x2b, value: 0x5e });
        ops.push(RegOp::AnalogWrite { reg: 0x2c, value: 0x80u8 | (if timer { 0x14u8 } else { 0x1du8 }) });
        ops.push(RegOp::AnalogModify { reg: 0x07, clear: 0x07, set: 4 });
        ops.push(RegOp::Write8 { addr: 0x0080_0602, value: 0x08 });
        ops.push(RegOp::AnalogWrite { reg: 0x7f, value: 1 });
    }
    assert(ops@ =~= start + xtal_sleep_setup_ops(mode_byte, wakeup_src, tl_multi_addr));
}

/// The system tick after a crystal-timed sleep, and the bookkeeping tick.
pub open spec fn xtal_ticks_after_wake(cur: u32, cur32: u32, t32: u32, long: bool) -> (u32, u32) {
    let m = 0x1_0000_0000int;
    let d = (t32 as int - cur32 as int) % m;
    let upd = if long {
        ((cur + ((d / 32) * 15625) % m) % m) as u32
    } else {
        ((cur + ((d * 15625) % m) / 32) % m) as u32
    };
    (upd, ((upd + 320) % m) as u32)
}

#[verifier::rlimit(40)]
pub fn xtal_tick_after_wake(g: &mut PmGlobals, t32: u32)
    ensures
        ({
            let (t, t32k) = xtal_ticks_after_wake(old(g).tick_cur, old(g).tick_32k_cur, t32, old(g).pm_long_suspend != 0);
            *final(g) == (PmGlobals { tick_cur: t, tick_32k_cur: t32k, ..*old(g) })
        }),
{
    let cur = g.tick_cur;
    let cur32 = g.tick_32k_cur;
    let d = t32.wrapping_sub(cur32);
    let upd = if g.pm_long_suspend != 0 {
        cur.wrapping_add((d / 32).wrapping_mul(CRYSTAL32768_TICK_PER_32CYCLE))
    } else {
        cur.wrapping_add(d.wrapping_mul(CRYSTAL32768_TICK_PER_32CYCLE) / 32)
    };
    g.tick_cur = upd;
    g.tick_32k_cur = upd.wrapping_add(20 * 16);
}

/// The result word of a timed sleep from the wake status read on wake-up:
/// the status with the entered-suspend flag, or the refusal code when no
/// wake status was latched.
pub fn sleep_status(st: u8) -> (r: i32)
    ensures
        st != 0 ==> r == ((st as u32 | STATUS_ENTER_SUSPEND) as i32),
        st == 0 ==> r == STATUS_GPIO_ERR_NO_ENTER_PM as i32,
{
    if st != 0 {
        (st as u32 | STATUS_ENTER_SUSPEND) as i32
    } else {
        STATUS_GPIO_ERR_NO_ENTER_PM as i32
    }
}

/// Whether, after a comparator wake with the timer armed, the caller must
/// keep waiting for the original wake-up tick.
pub fn comparator_wait_needed(st: u8, timer_wakeup: bool) -> (b: bool)
    ensures
        b == ((st & PM_WAKEUP_COMPARATOR_BITS) != 0 && timer_wakeup),
{
    (st & PM_WAKEUP_COMPARATOR_BITS) != 0 && timer_wakeup
}

/// The system-timer budget of a long sleep shorter than 64 RC ticks: 125
/// system ticks per 32 kHz tick less one in 125.
pub fn long_rc_short_budget(d: u32) -> (b: u32)
    ensures
        b == ((((d as int * 31) % 0x1_0000_0000) * 4 % 0x1_0000_0000 + d) % 0x1_0000_0000),
{
    let t = d.wrapping_mul(31);
    t.wrapping_mul(4).wrapping_add(d)
}

/// The same on the crystal.
pub fn long_xtal_short_budget(d: u32) -> (b: u32)
    ensures
        ({
            let m = 0x1_0000_0000int;
            let t = (d as int * 31) % m;
            b == ((((((t * 64) % m - t) % m) * 8) % m + d) % m) / 32
        }),
{
    let t = d.wrapping_mul(31);
    (t.wrapping_mul(64).wrapping_sub(t).wrapping_mul(8).wrapping_add(d)) / 32
}

// ---------------------------------------------------------------------------
// Long sleeps counted in 32 kHz ticks
// ---------------------------------------------------------------------------

/// The calibration a long RC sleep uses: the sleep timer's own value, or
/// the selected source's when the timer reads zero.
pub fn long_sleep_calib(g: &PmGlobals, calib_reg: u16) -> (c: u16)
    ensures
        c == (if calib_reg != 0 { calib_reg } else { g.tick_32k_calib }),
{
    if calib_reg != 0 {
        calib_reg
    } else {
        g.tick_32k_calib
    }
}

/// The analog and digital writes that set up a long RC sleep.
pub open spec fn long_rc_setup_ops(mode_byte: u8, wakeup_src: u8, tl_multi_addr: u8) -> Seq<RegOp> {
    let ret = mode_byte & 0x7f;
    let has_timer = (wakeup_src & PM_WAKEUP_TIMER_BITS) != 0;
    let cmp: u8 = if (wakeup_src & PM_WAKEUP_COMPARATOR_BITS) != 0 { 1 } else { 0 };
    let any: u8 = cmp | (if has_timer { 1u8 } else { 0u8 });
    let (an7, v2c): (u8, u8) = if ret != 0 { (1, 0x56) } else if mode_byte == 0 { (4, 0x96) } else { (5, 0xd6) };
    let a2c: u8 = if ret != 0 && wakeup_src == PM_WAKEUP_TIMER_BITS {
        0x5e
    } else if mode_byte == 0x80 && wakeup_src == PM_WAKEUP_TIMER_BITS {
        0xde
    } else {
        v2c | any | (cmp << 3u8)
    };
    seq![
        RegOp::AnalogWrite { reg: 0x26, value: wakeup_src },
        RegOp::AnalogWrite { reg: 0x44, value: WAKEUP_STATUS_ALL },
        RegOp::Write8 { addr: 0x0080_0066, value: 0 },
    ] + (if ret != 0 {
        seq![
            RegOp::AnalogModify { reg: 0x02, clear: 0x07, set: 0x05 },
            RegOp::Write8 { addr: 0x0080_063e, value: tl_multi_addr },
            RegOp::AnalogWrite { reg: 0x2b, value: 0xde },
        ]
    } else if mode_byte == 0 {
        seq![
            RegOp::AnalogWrite { reg: 0x04, value: 0x48 },
            RegOp::AnalogWrite { reg: 0x7e, value: 0x00 },
            RegOp::AnalogWrite { reg: 0x2b, value: 0x5e },
        ]
    } else {
        seq![RegOp::AnalogWrite { reg: 0x2b, value: 0xde }]
    }) + seq![
        RegOp::AnalogWrite { reg: 0x7e, value: mode_byte },
        RegOp::AnalogWrite { reg: 0x2c, value: a2c },
        RegOp::AnalogModify { reg: 0x07, clear: 0x07, set: an7 },
    ] + (if ret == 0 {
        seq![RegOp::Write8 { addr: 0x0080_0602, value: 0x08 }, RegOp::AnalogWrite { reg: 0x7f, value: 0x01 }]
    } else {
        seq![RegOp::AnalogWrite { reg: 0x7f, value: 0x00 }]
    })
}

pub fn long_rc_sleep_setup(ops: &mut Vec<RegOp>, mode_byte: u8, wakeup_src: u8, tl_multi_addr: u8)
    ensures
        final(ops)@ == old(ops)@ + long_rc_setup_ops(mode_byte, wakeup_src, tl_multi_addr),
{
    let ghost start = ops@;
    ops.push(RegOp::AnalogWrite { reg: 0x26, value: wakeup_src });
    ops.push(RegOp::AnalogWrite { reg: 0x44, value: WAKEUP_STATUS_ALL });
    ops.push(RegOp::Write8 { addr: 0x0080_0066, value: 0 });
    let ret = mode_byte & 0x7f;
    let (an7, v2c): (u8, u8) = if ret != 0 {
        ops.push(RegOp::AnalogModify { reg: 0x02, clear: 0x07, set: 0x05 });
        ops.push(RegOp::Write8 { addr: 0x0080_063e, value: tl_multi_addr });
        ops.push(RegOp::AnalogWrite { reg: 0x2b, value: 0xde });
        (1, 0x56)
    } else if mode_byte == 0 {
        ops.push(RegOp::AnalogWrite { reg: 0x04, value: 0x48 });
        ops.push(RegOp::AnalogWrite { reg: 0x7e, value: 0x00 });
        ops.push(RegOp::AnalogWrite { reg: 0x2b, value: 0x5e });
        (4, 0x96)
    } else {
        ops.push(RegOp::AnalogWrite { reg: 0x2b, value: 0xde });
        (5, 0xd6)
    };
    ops.push(RegOp::AnalogWrite { reg: 0x7e, value: mode_byte });
    let has_timer = (wakeup_src & PM_WAKEUP_TIMER_BITS) != 0;
    let cmp: u8 = if (wakeup_src & PM_WAKEUP_COMPARATOR_BITS) != 0 { 1 } else { 0 };
    let any: u8 = cmp | (if has_timer { 1u8 } else { 0u8 });
    let mut analog2c: u8 = v2c | any | (cmp << 3u8);
    if ret != 0 && wakeup_src == PM_WAKEUP_TIMER_BITS {
        analog2c = 0x5e;
    } else if mode_byte == 0x80 && wakeup_src == PM_WAKEUP_TIMER_BITS {
        analog2c = 0xde;
    }
    ops.push(RegOp::AnalogWrite { reg: 0x2c, value: analog2c });
    ops.push(RegOp::AnalogModify { reg: 0x07, clear: 0x07, set: an7 });
    if ret == 0 {
        ops.push(RegOp::Write8 { addr: 0x0080_0602, value: 0x08 });
        ops.push(RegOp::AnalogWrite { reg: 0x7f, value: 0x01 });
    } else {
        ops.push(RegOp::AnalogWrite { reg: 0x7f, value: 0x00 });
    }
    assert(ops@ =~= start + long_rc_setup_ops(mode_byte, wakeup_src, tl_multi_addr));
}

/// The long RC sleep calibration registers (0x1f holds the complement).
pub fn long_rc_sleep_calibration(ops: &mut Vec<RegOp>, mode_byte: u8, calib: u16, sr: u32)
    requires
        calib != 0,
    ensures
        final(ops)@ == old(ops)@ + (if mode_byte == 0x80 {
            seq![RegOp::AnalogModify { reg: 0x3c, clear: 0, set: 0x02 }]
        } else {
            Seq::empty()
        }) + seq![
            RegOp::AnalogWrite { reg: 0x20, value: rc_calib_values(calib, sr).0 },
            RegOp::AnalogWrite { reg: 0x1f, value: !rc_calib_values(calib, sr).1 },
        ],
{
    let ghost start = ops@;
    let half = (calib / 2) as u32;
    if mode_byte == 0x80 {
        ops.push(RegOp::AnalogModify { reg: 0x3c, clear: 0, set: 0x02 });
    }
    let a20 = 0x7f_u32.wrapping_sub((0xfa00u32 + half) / (calib as u32)) as u8;
    let a1f = ((sr.wrapping_mul(128)).wrapping_add(half) / (calib as u32)) as u8;
    ops.push(RegOp::AnalogWrite { reg: 0x20, value: a20 });
    ops.push(RegOp::AnalogWrite { reg: 0x1f, value: !a1f });
    assert(ops@ =~= start + (if mode_byte == 0x80 {
        seq![RegOp::AnalogModify { reg: 0x3c, clear: 0, set: 0x02 }]
    } else {
        Seq::empty()
    }) + seq![
        RegOp::AnalogWrite { reg: 0x20, value: rc_calib_values(calib, sr).0 },
        RegOp::AnalogWrite { reg: 0x1f, value: !rc_calib_values(calib, sr).1 },
    ]);
}

/// The 32 kHz tick at which a long RC sleep ends: the duration less 64
/// ticks after the recorded 32 kHz start, less the setup time `dt` (system
/// ticks) converted with the calibration.
pub open spec fn long_rc_wake_tick(minus64: u32, tick_32k_cur: u32, dt: u32, calib: u16, long: bool) -> u32 {
    if long {
        wsub(wadd(minus64, tick_32k_cur), wmul(dt / (calib as u32), 16))
    } else {
        wsub(wadd(minus64, tick_32k_cur), wadd(wmul(dt, 16), (calib / 2) as u32) / (calib as u32))
    }
}

pub fn long_rc_sleep_wake_tick(minus64: u32, tick_32k_cur: u32, dt: u32, calib: u16, long: bool) -> (t: u32)
    requires
        calib != 0,
    ensures
        t == long_rc_wake_tick(minus64, tick_32k_cur, dt, calib, long),
{
    let base = minus64.wrapping_add(tick_32k_cur);
    if long {
        let q = dt / (calib as u32);
        base.wrapping_sub(q.wrapping_mul(16))
    } else {
        let x = dt.wrapping_mul(16);
        let y = x.wrapping_add((calib / 2) as u32);
        base.wrapping_sub(y / (calib as u32))
    }
}

/// The writes that move the 32 kHz clock from the crystal pad to the RC
/// oscillator for a deep sleep without timer wake-up.
pub open spec fn switch_to_rc_ops(mode: u8) -> Seq<RegOp> {
    seq![
        RegOp::AnalogModify { reg: 0x3c, clear: 0x01, set: 0 },
        RegOp::AnalogWrite { reg: 0x2d, value: 0x15 },
        RegOp::AnalogWrite { reg: 0x05, value: 0x02 },
        RegOp::AnalogWrite { reg: 0x2c, value: mode | 0x16 },
    ]
}

pub fn switch_ext32kpad_to_int32krc(ops: &mut Vec<RegOp>, mode: u8)
    ensures
        final(ops)@ == old(ops)@ + switch_to_rc_ops(mode),
{
    let ghost start = ops@;
    ops.push(RegOp::AnalogModify { reg: 0x3c, clear: 0x01, set: 0 });
    ops.push(RegOp::AnalogWrite { reg: 0x2d, value: 0x15 });
    ops.push(RegOp::AnalogWrite { reg: 0x05, value: 0x02 });
    ops.push(RegOp::AnalogWrite { reg: 0x2c, value: mode | 0x16 });
    assert(ops@ =~= start + switch_to_rc_ops(mode));
}

/// The analog and digital writes that set up a long crystal sleep, and
/// whether the deep-mode steps follow (a non-zero effective mode).
pub open spec fn long_xtal_setup(mode_byte: u8, wakeup_src: u8, tl_multi_addr: u8, irq_enabled: bool) -> (Seq<
    RegOp,
>, bool) {
    let has_timer = (wakeup_src & PM_WAKEUP_TIMER_BITS) != 0;
    let cmp: u8 = if (wakeup_src & PM_WAKEUP_COMPARATOR_BITS) != 0 { 1 } else { 0 };
    let no_ret = mode_byte & 0x7f;
    let ab: u8 = if irq_enabled { 1 } else { 0 };
    let head = seq![
        RegOp::AnalogWrite { reg: 0x26, value: wakeup_src },
        RegOp::AnalogWrite { reg: 0x44, value: WAKEUP_STATUS_ALL },
        RegOp::Write8 { addr: 0x0080_0066, value: 0 },
    ];
    let (mid, an7, mode2c, eff_mode, ret_flag): (Seq<RegOp>, u8, u8, bool, bool) = if no_ret != 0 {
        (
            seq![
                RegOp::AnalogModify { reg: 0x02, clear: 0x07, set: 0x05 },
                RegOp::Write8 { addr: 0x0080_063e, value: tl_multi_addr },
            ],
            5,
            0xde,
            mode_byte != 0x80,
            true,
        )
    } else if mode_byte == 0 {
        (
            seq![
                RegOp::AnalogWrite { reg: 0x04, value: 0x48 },
                RegOp::AnalogWrite { reg: 0x7e, value: 0x00 },
                RegOp::AnalogWrite { reg: 0x2b, value: 0x5e },
            ],
            4,
            0x1d,
            false,
            false,
        )
    } else {
        (
            seq![RegOp::AnalogWrite { reg: 0x7e, value: 0x80 }, RegOp::AnalogWrite { reg: 0x2b, value: 0xde }] + (if !has_timer {
                switch_to_rc_ops(ab | 0xc0u8 | (ab << 3u8))
            } else {
                Seq::empty()
            }),
            5,
            if !has_timer { 0x00 } else { 0xc0 },
            true,
            true,
        )
    };
    let v2c: u8 = if !eff_mode { 0x80u8 | cmp | PM_WAKEUP_TIMER_BITS | (cmp << 3u8) } else { 0x16u8 | mode2c };
    (
        head + mid + seq![
            RegOp::AnalogWrite { reg: 0x2c, value: v2c },
            RegOp::AnalogModify { reg: 0x07, clear: 0x07, set: an7 },
        ] + (if !ret_flag {
            seq![RegOp::Write8 { addr: 0x0080_0602, value: 0x08 }, RegOp::AnalogWrite { reg: 0x7f, value: 1 }]
        } else {
            seq![RegOp::AnalogWrite { reg: 0x7f, value: 0 }]
        }) + (if eff_mode {
            seq![RegOp::AnalogModify { reg: 0x3c, clear: 0, set: 0x02 }]
        } else {
            Seq::empty()
        }),
        eff_mode,
    )
}

pub fn long_xtal_sleep_setup(ops: &mut Vec<RegOp>, mode_byte: u8, wakeup_src: u8, tl_multi_addr: u8, irq_enabled: bool) -> (deep: bool)
    ensures
        final(ops)@ == old(ops)@ + long_xtal_setup(mode_byte, wakeup_src, tl_multi_addr, irq_enabled).0,
        deep == long_xtal_setup(mode_byte, wakeup_src, tl_multi_addr, irq_enabled).1,
{
    let ghost start = ops@;
    ops.push(RegOp::AnalogWrite { reg: 0x26, value: wakeup_src });
    ops.push(RegOp::AnalogWrite { reg: 0x44, value: WAKEUP_STATUS_ALL });
    ops.push(RegOp::Write8 { addr: 0x0080_0066, value: 0 });
    let has_timer = (wakeup_src & PM_WAKEUP_TIMER_BITS) != 0;
    let no_ret = mode_byte & 0x7f;
    let (an7, mode2c, eff_mode, ret_flag): (u8, u8, bool, bool) = if no_ret != 0 {
        ops.push(RegOp::AnalogModify { reg: 0x02, clear: 0x07, set: 0x05 });
        ops.push(RegOp::Write8 { addr: 0x0080_063e, value: tl_multi_addr });
        (5, 0xde, mode_byte != 0x80, true)
    } else if mode_byte == 0 {
        ops.push(RegOp::AnalogWrite { reg: 0x04, value: 0x48 });
        ops.push(RegOp::AnalogWrite { reg: 0x7e, value: 0x00 });
        ops.push(RegOp::AnalogWrite { reg: 0x2b, value: 0x5e });
        (4, 0x1d, false, false)
    } else {
        ops.push(RegOp::AnalogWrite { reg: 0x7e, value: 0x80 });
        ops.push(RegOp::AnalogWrite { reg: 0x2b, value: 0xde });
        if !has_timer {
            let ab: u8 = if irq_enabled { 1 } else { 0 };
            switch_ext32kpad_to_int32krc(ops, ab | 0xc0 | (ab << 3u8));
            (5, 0x00, true, true)
        } else {
            (5, 0xc0, true, true)
        }
    };
    let cmp: u8 = if (wakeup_src & PM_WAKEUP_COMPARATOR_BITS) != 0 { 1 } else { 0 };
    if !eff_mode {
        ops.push(RegOp::AnalogWrite { reg: 0x2c, value: 0x80u8 | cmp | PM_WAKEUP_TIMER_BITS | (cmp << 3u8) });
    } else {
        ops.push(RegOp::AnalogWrite { reg: 0x2c, value: 0x16u8 | mode2c });
    }
    ops.push(RegOp::AnalogModify { reg: 0x07, clear: 0x07, set: an7 });
    if !ret_flag {
        ops.push(RegOp::Write8 { addr: 0x0080_0602, value: 0x08 });
        ops.push(RegOp::AnalogWrite { reg: 0x7f, value: 1 });
    } else {
        ops.push(RegOp::AnalogWrite { reg: 0x7f, value: 0 });
    }
    if eff_mode {
        ops.push(RegOp::AnalogModify { reg: 0x3c, clear: 0, set: 0x02 });
    }
    assert(ops@ =~= start + long_xtal_setup(mode_byte, wakeup_src, tl_multi_addr, irq_enabled).0);
    eff_mode
}

/// The 32 kHz tick at which a long crystal sleep ends.
pub open spec fn long_xtal_wake_tick(wake_m64: u32, tick_cur: u32, dt: u32, long: bool) -> u32 {
    if long {
        wsub(wadd(wake_m64, tick_cur), wmul(dt / 15625, 32))
    } else {
        wsub(wadd(wake_m64, tick_cur), wadd(wmul(dt, 32), 7812) / 15625)
    }
}

pub fn long_xtal_sleep_wake_tick(wake_m64: u32, tick_cur: u32, dt: u32, long: bool) -> (t: u32)
    ensures
        t == long_xtal_wake_tick(wake_m64, tick_cur, dt, long),
{
    let base = wake_m64.wrapping_add(tick_cur);
    if long {
        let q = dt / CRYSTAL32768_TICK_PER_32CYCLE;
        base.wrapping_sub(q.wrapping_mul(32))
    } else {
        let x = dt.wrapping_mul(32);
        let y = x.wrapping_add(CRYSTAL32768_TICK_PER_32CYCLE / 2);
        base.wrapping_sub(y / CRYSTAL32768_TICK_PER_32CYCLE)
    }
}

/// The crystal calibration register 0x1f of a long sleep.
pub fn long_xtal_calib_1f(sr: u32) -> (v: u8)
    requires
        sr <= 0xffff,
    ensures
        v == ((sr * 256 + 7812) / 15625) as u8,
{
    ((sr * 256 + CRYSTAL32768_TICK_PER_32CYCLE / 2) / CRYSTAL32768_TICK_PER_32CYCLE) as u8
}

} // verus!
