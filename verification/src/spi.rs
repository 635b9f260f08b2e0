//! The SPI master: clock divider, mode encoding, bring-up, and the byte
//! stream of a full-duplex transfer.

use vstd::prelude::*;

use crate::gpio::{PA2, PA3, PA4, PB6, PB7, PD2, PD6, PD7};
use crate::mmio::{bits8_op, modify_bits8, RegOp};
use crate::regs::{FLD_CLK0_SPI_EN, FLD_SPI_ENABLE, REG_CLK_EN0, REG_SPI_SP};

verus! {

pub const REG_SPI_DATA: u32 = 0x0080_0008;
pub const REG_SPI_CTRL: u32 = 0x0080_0009;
pub const REG_SPI_INV_CLK: u32 = 0x0080_000b;
pub const FLD_SPI_MASTER_MODE_EN: u8 = 0x02;
pub const FLD_SPI_DATA_OUT_DIS: u8 = 0x04;
pub const FLD_SPI_RD: u8 = 0x08;
pub const FLD_SPI_SHARE_MODE: u8 = 0x20;
pub const FLD_SPI_BUSY: u8 = 0x40;

/// Status polls before a byte counts as timed out.
pub const SPI_TIMEOUT_CYCLES: usize = 100_000;
pub const SPI_CLOCK_DIVIDER_MAX: u8 = 0x7f;
pub const SPI_MODE0_INV_CLK: u8 = 0;
pub const SPI_MODE1_INV_CLK: u8 = 1;
pub const SPI_MODE2_INV_CLK: u8 = 2;
pub const SPI_MODE3_INV_CLK: u8 = 3;
/// What a transfer sends once the bytes to write have run out.
pub const SPI_TX_DUMMY_BYTE: u8 = 0;

/// The pad groups (SCK, SDO, SDI, CS) the master can use.
#[derive(Clone, Copy, Debug, PartialEq, Eq, Structural)]
pub enum SpiPinGroup {
    A2A3A4D6,
    B6B7D2D7,
}

impl SpiPinGroup {
    /// The group number the vendor pad routine takes.
    pub fn code(self) -> (c: u32)
        ensures
            c == match self {
                SpiPinGroup::A2A3A4D6 => 0u32,
                SpiPinGroup::B6B7D2D7 => 1u32,
            },
    {
        match self {
            SpiPinGroup::A2A3A4D6 => 0,
            SpiPinGroup::B6B7D2D7 => 1,
        }
    }
}

/// Clock level between transfers.
#[derive(Clone, Copy, Debug, PartialEq, Eq, Structural)]
pub enum Polarity {
    IdleLow,
    IdleHigh,
}

/// Clock edge on which data is captured.
#[derive(Clone, Copy, Debug, PartialEq, Eq, Structural)]
pub enum Phase {
    CaptureOnFirstTransition,
    CaptureOnSecondTransition,
}

#[derive(Clone, Copy, Debug, PartialEq, Eq, Structural)]
pub struct Mode {
    pub polarity: Polarity,
    pub phase: Phase,
}

/// The clock inversion register value of a mode.
pub open spec fn mode_code(mode: Mode) -> u8 {
    match (mode.polarity, mode.phase) {
        (Polarity::IdleLow, Phase::CaptureOnFirstTransition) => SPI_MODE0_INV_CLK,
        (Polarity::IdleHigh, Phase::CaptureOnFirstTransition) => SPI_MODE1_INV_CLK,
        (Polarity::IdleLow, Phase::CaptureOnSecondTransition) => SPI_MODE2_INV_CLK,
        (Polarity::IdleHigh, Phase::CaptureOnSecondTransition) => SPI_MODE3_INV_CLK,
    }
}

pub fn encode_mode(mode: Mode) -> (c: u8)
    ensures
        c == mode_code(mode),
{
    match (mode.polarity, mode.phase) {
        (Polarity::IdleLow, Phase::CaptureOnFirstTransition) => SPI_MODE0_INV_CLK,
        (Polarity::IdleHigh, Phase::CaptureOnFirstTransition) => SPI_MODE1_INV_CLK,
        (Polarity::IdleLow, Phase::CaptureOnSecondTransition) => SPI_MODE2_INV_CLK,
        (Polarity::IdleHigh, Phase::CaptureOnSecondTransition) => SPI_MODE3_INV_CLK,
    }
}

#[derive(Clone, Copy, Debug, PartialEq, Eq, Structural)]
pub struct Config {
    pub frequency_hz: u32,
    pub mode: Mode,
    pub pin_group: SpiPinGroup,
    pub share_mode: bool,
}

impl Config {
    pub fn new(pin_group: SpiPinGroup, frequency_hz: u32, mode: Mode) -> (c: Self)
        ensures
            c == (Config { frequency_hz, mode, pin_group, share_mode: false }),
    {
        Config { frequency_hz, mode, pin_group, share_mode: false }
    }

    pub fn with_share_mode(self, share_mode: bool) -> (c: Self)
        ensures
            c == (Config { share_mode, ..self }),
    {
        Config { share_mode, ..self }
    }
}

#[derive(Clone, Copy, Debug, PartialEq, Eq, Structural)]
pub enum SpiError {
    Timeout,
    Other,
}

/// Types that stand for the pads of one pin group.
pub trait SpiPins {
    spec fn spec_pin_group() -> SpiPinGroup;

    fn pin_group(&self) -> (g: SpiPinGroup)
        ensures
            g == Self::spec_pin_group(),
    ;
}

impl<'a, A2Mode, A3Mode, A4Mode, D6Mode> SpiPins for (
    &'a mut PA2<A2Mode>,
    &'a mut PA3<A3Mode>,
    &'a mut PA4<A4Mode>,
    &'a mut PD6<D6Mode>,
) {
    open spec fn spec_pin_group() -> SpiPinGroup {
        SpiPinGroup::A2A3A4D6
    }

    fn pin_group(&self) -> (g: SpiPinGroup) {
        SpiPinGroup::A2A3A4D6
    }
}

impl<'a, B6Mode, B7Mode, D2Mode, D7Mode> SpiPins for (
    &'a mut PB6<B6Mode>,
    &'a mut PB7<B7Mode>,
    &'a mut PD2<D2Mode>,
    &'a mut PD7<D7Mode>,
) {
    open spec fn spec_pin_group() -> SpiPinGroup {
        SpiPinGroup::B6B7D2D7
    }

    fn pin_group(&self) -> (g: SpiPinGroup) {
        SpiPinGroup::B6B7D2D7
    }
}

/// The clock divider for `frequency_hz` (at least 1) on a `sys_mhz` MHz
/// clock: half the clock per bit, minus one, kept within 0..=0x7f.
pub open spec fn divider_for(sys_mhz: u8, frequency_hz: u32) -> u8 {
    let f: int = if frequency_hz < 1 { 1 } else { frequency_hz as int };
    let q = (sys_mhz * 1_000_000) / (f * 2);
    let d = if q >= 1 { q - 1 } else { 0 };
    if d > 0x7f { 0x7f } else { d as u8 }
}

pub fn compute_divider(sys_mhz: u8, frequency_hz: u32) -> (d: u8)
    requires
        frequency_hz <= 0x7fff_ffff,
    ensures
        d == divider_for(sys_mhz, frequency_hz),
{
    let sys_hz: u32 = sys_mhz as u32 * 1_000_000;
    let f: u32 = if frequency_hz < 1 {
        1
    } else {
        frequency_hz
    };
    let q = sys_hz / (f * 2);
    let d: u32 = if q >= 1 {
        q - 1
    } else {
        0
    };
    if d > 0x7f {
        0x7f
    } else {
        d as u8
    }
}

/// The writes that bring the master up: clock on, divider (written twice,
/// as the bring-up does), master mode with or without share mode, clock
/// mode.
pub open spec fn init_ops(sys_mhz: u8, frequency_hz: u32, mode: Mode, share_mode: bool) -> Seq<RegOp> {
    let sp = RegOp::Write8 { addr: REG_SPI_SP, value: FLD_SPI_ENABLE | divider_for(sys_mhz, frequency_hz) };
    seq![
        RegOp::Modify8 { addr: REG_CLK_EN0, clear: 0, set: FLD_CLK0_SPI_EN },
        sp,
        sp,
        RegOp::Modify8 {
            addr: REG_SPI_CTRL,
            clear: if share_mode { 0 } else { FLD_SPI_SHARE_MODE },
            set: FLD_SPI_MASTER_MODE_EN | if share_mode { FLD_SPI_SHARE_MODE } else { 0 },
        },
        RegOp::Write8 { addr: REG_SPI_INV_CLK, value: mode_code(mode) },
    ]
}

/// The SPI master, its bit rate and clock mode.
pub struct Spi {
    frequency_hz: u32,
    mode: Mode,
}

impl Spi {
    pub closed spec fn frequency(&self) -> u32 {
        self.frequency_hz
    }

    pub closed spec fn spi_mode(&self) -> Mode {
        self.mode
    }

    /// Brings the master up for `config` on a `sys_mhz` MHz clock, once the
    /// pads of `config.pin_group` are routed.
    pub fn new(ops: &mut Vec<RegOp>, config: Config, sys_mhz: u8) -> (s: Self)
        requires
            config.frequency_hz <= 0x7fff_ffff,
        ensures
            s.frequency() == config.frequency_hz,
            s.spi_mode() == config.mode,
            final(ops)@ == old(ops)@ + init_ops(sys_mhz, config.frequency_hz, config.mode, config.share_mode),
    {
        let ghost start = ops@;
        let spi = Spi { frequency_hz: config.frequency_hz, mode: config.mode };
        ops.push(RegOp::Modify8 { addr: REG_CLK_EN0, clear: 0, set: FLD_CLK0_SPI_EN });
        spi.write_clock_divider(ops, sys_mhz);
        let div = compute_divider(sys_mhz, spi.frequency_hz);
        ops.push(RegOp::Write8 { addr: REG_SPI_SP, value: FLD_SPI_ENABLE | div });
        let clear: u8 = if config.share_mode {
            0
        } else {
            FLD_SPI_SHARE_MODE
        };
        let share: u8 = if config.share_mode {
            FLD_SPI_SHARE_MODE
        } else {
            0
        };
        ops.push(RegOp::Modify8 { addr: REG_SPI_CTRL, clear, set: FLD_SPI_MASTER_MODE_EN | share });
        spi.write_mode(ops);
        assert(ops@ =~= start + init_ops(sys_mhz, config.frequency_hz, config.mode, config.share_mode));
        spi
    }

    /// As `new`, on the pin group that `pins` stand for.
    pub fn with_pins<PINS: SpiPins>(ops: &mut Vec<RegOp>, pins: PINS, frequency_hz: u32, mode: Mode, sys_mhz: u8) -> (r:
        (Self, SpiPinGroup))
        requires
            frequency_hz <= 0x7fff_ffff,
        ensures
            r.1 == PINS::spec_pin_group(),
            r.0.frequency() == frequency_hz,
            r.0.spi_mode() == mode,
            final(ops)@ == old(ops)@ + init_ops(sys_mhz, frequency_hz, mode, false),
    {
        let group = pins.pin_group();
        (Spi::new(ops, Config::new(group, frequency_hz, mode), sys_mhz), group)
    }

    pub fn frequency_hz(&self) -> (f: u32)
        ensures
            f == self.frequency(),
    {
        self.frequency_hz
    }

    /// Changes the bit rate (at least 1 Hz) and rewrites the divider.
    pub fn set_frequency(&mut self, ops: &mut Vec<RegOp>, frequency_hz: u32, sys_mhz: u8)
        requires
            frequency_hz <= 0x7fff_ffff,
        ensures
            final(self).frequency() == if frequency_hz < 1 { 1 } else { frequency_hz },
            final(self).spi_mode() == old(self).spi_mode(),
            final(ops)@ == old(ops)@.push(
                RegOp::Write8 { addr: REG_SPI_SP, value: FLD_SPI_ENABLE | divider_for(sys_mhz, frequency_hz) },
            ),
    {
        self.frequency_hz = if frequency_hz < 1 {
            1
        } else {
            frequency_hz
        };
        self.write_clock_divider(ops, sys_mhz);
    }

    pub fn set_mode(&mut self, ops: &mut Vec<RegOp>, mode: Mode)
        ensures
            final(self).frequency() == old(self).frequency(),
            final(self).spi_mode() == mode,
            final(ops)@ == old(ops)@.push(RegOp::Write8 { addr: REG_SPI_INV_CLK, value: mode_code(mode) }),
    {
        self.mode = mode;
        self.write_mode(ops);
    }

    pub fn set_share_mode(&mut self, ops: &mut Vec<RegOp>, enabled: bool)
        ensures
            final(self).frequency() == old(self).frequency(),
            final(self).spi_mode() == old(self).spi_mode(),
            final(ops)@ == old(ops)@.push(bits8_op(REG_SPI_CTRL, FLD_SPI_SHARE_MODE, enabled)),
    {
        ops.push(modify_bits8(REG_SPI_CTRL, FLD_SPI_SHARE_MODE, enabled));
    }

    fn write_clock_divider(&self, ops: &mut Vec<RegOp>, sys_mhz: u8)
        requires
            self.frequency() <= 0x7fff_ffff,
        ensures
            final(ops)@ == old(ops)@.push(
                RegOp::Write8 { addr: REG_SPI_SP, value: FLD_SPI_ENABLE | divider_for(sys_mhz, self.frequency()) },
            ),
    {
        let div = compute_divider(sys_mhz, self.frequency_hz);
        ops.push(RegOp::Write8 { addr: REG_SPI_SP, value: FLD_SPI_ENABLE | div });
    }

    fn write_mode(&self, ops: &mut Vec<RegOp>)
        ensures
            final(ops)@ == old(ops)@.push(RegOp::Write8 { addr: REG_SPI_INV_CLK, value: mode_code(self.spi_mode()) }),
    {
        ops.push(RegOp::Write8 { addr: REG_SPI_INV_CLK, value: encode_mode(self.mode) });
    }

    /// Drives the data line for sending: output on, read off.
    pub fn write_setup(&mut self, ops: &mut Vec<RegOp>)
        ensures
            *final(self) == *old(self),
            final(ops)@ == old(ops)@.push(
                RegOp::Modify8 { addr: REG_SPI_CTRL, clear: FLD_SPI_DATA_OUT_DIS | FLD_SPI_RD, set: 0 },
            ),
    {
        ops.push(RegOp::Modify8 { addr: REG_SPI_CTRL, clear: FLD_SPI_DATA_OUT_DIS | FLD_SPI_RD, set: 0 });
    }

    /// Releases the data line for receiving: output off, read on.
    pub fn read_setup(&mut self, ops: &mut Vec<RegOp>)
        ensures
            *final(self) == *old(self),
            final(ops)@ == old(ops)@.push(
                RegOp::Modify8 { addr: REG_SPI_CTRL, clear: 0, set: FLD_SPI_DATA_OUT_DIS | FLD_SPI_RD },
            ),
    {
        ops.push(RegOp::Modify8 { addr: REG_SPI_CTRL, clear: 0, set: FLD_SPI_DATA_OUT_DIS | FLD_SPI_RD });
    }
}

/// One poll of the control register while a byte shifts.
#[derive(Clone, Copy, Debug, PartialEq, Eq, Structural)]
pub enum SpiPoll {
    Idle,
    /// Still busy; poll again (this many polls so far).
    Again(usize),
    TimedOut,
}

/// The poll after `polls` busy reads reads `ctrl`.
pub fn wait_not_busy_step(polls: usize, ctrl: u8) -> (r: SpiPoll)
    requires
        polls < SPI_TIMEOUT_CYCLES,
    ensures
        ctrl & FLD_SPI_BUSY == 0 ==> r == SpiPoll::Idle,
        ctrl & FLD_SPI_BUSY != 0 ==> r == if polls + 1 >= SPI_TIMEOUT_CYCLES {
            SpiPoll::TimedOut
        } else {
            SpiPoll::Again((polls + 1) as usize)
        },
{
    if ctrl & FLD_SPI_BUSY == 0 {
        SpiPoll::Idle
    } else if polls + 1 >= SPI_TIMEOUT_CYCLES {
        SpiPoll::TimedOut
    } else {
        SpiPoll::Again(polls + 1)
    }
}

/// The bytes a full-duplex transfer sends: as many as the longer of the two
/// buffers, the bytes to write followed by dummy bytes.
pub open spec fn transfer_stream(read_len: nat, write: Seq<u8>) -> Seq<u8> {
    let total = if read_len > write.len() { read_len } else { write.len() };
    Seq::new(total, |i: int| if i < write.len() { write[i] } else { SPI_TX_DUMMY_BYTE })
}

pub fn transfer_tx_bytes(read_len: usize, write: &[u8]) -> (tx: Vec<u8>)
    ensures
        tx@ == transfer_stream(read_len as nat, write@),
{
    let total = if read_len > write.len() {
        read_len
    } else {
        write.len()
    };
    let mut tx: Vec<u8> = Vec::new();
    let mut i: usize = 0;
    while i < total
        invariant
            i <= total,
            total == if read_len > write@.len() { read_len as nat } else { write@.len() },
            tx@ == transfer_stream(read_len as nat, write@).take(i as int),
        decreases total - i,
    {
        let b = if i < write.len() {
            write[i]
        } else {
            SPI_TX_DUMMY_BYTE
        };
        tx.push(b);
        proof {
            assert(transfer_stream(read_len as nat, write@).take(i + 1) =~= transfer_stream(
                read_len as nat,
                write@,
            ).take(i as int).push(b));
        }
        i = i + 1;
    }
    assert(transfer_stream(read_len as nat, write@).take(total as int) =~= transfer_stream(read_len as nat, write@));
    tx
}

} // verus!
