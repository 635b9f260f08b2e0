//! The I2C master: speed divider, bring-up, and the command sequence of a
//! transaction as a plan of bus steps with the outcome of each.

use vstd::prelude::*;

use crate::gpio::{PA3, PA4, PB6, PC0, PC1, PC2, PC3, PD7};
use crate::mmio::RegOp;
use crate::regs::{
    FLD_CLK0_I2C_EN, FLD_RST0_I2C, FLD_SPI_ENABLE, REG_CLK_EN0, REG_I2C_CTRL, REG_I2C_DO, REG_I2C_ID,
    REG_I2C_MODE, REG_I2C_SPEED, REG_RST0, REG_SPI_SP,
};

verus! {

pub const I2C_MAX_DIVIDER: u8 = 255;
pub const I2C_DEFAULT_FREQ_HZ: u32 = 100_000;
pub const I2C_MAX_FREQ_HZ: u32 = 400_000;
/// Status polls before a command counts as timed out.
pub const I2C_TIMEOUT_CYCLES: usize = 100_000;

pub const FLD_I2C_WRITE_READ_BIT: u8 = 0x01;
pub const FLD_I2C_CMD_BUSY: u8 = 0x01;
pub const FLD_I2C_NAK: u8 = 0x04;
pub const FLD_I2C_MASTER_EN: u8 = 0x02;
pub const FLD_I2C_HOLD_MASTER: u8 = 0x08;
pub const FLD_I2C_CMD_ID: u8 = 0x01;
pub const FLD_I2C_CMD_DO: u8 = 0x04;
pub const FLD_I2C_CMD_DI: u8 = 0x08;
pub const FLD_I2C_CMD_START: u8 = 0x10;
pub const FLD_I2C_CMD_STOP: u8 = 0x20;
pub const FLD_I2C_CMD_READ_ID: u8 = 0x40;
pub const FLD_I2C_CMD_ACK: u8 = 0x80;

/// The pad pairs (SDA, SCL) the master can use.
#[derive(Clone, Copy, Debug, PartialEq, Eq, Structural)]
pub enum I2cPinGroup {
    A3A4,
    B6D7,
    C0C1,
    C2C3,
}

impl I2cPinGroup {
    /// The group number the vendor pad routine takes.
    pub fn code(self) -> (c: u32)
        ensures
            c == match self {
                I2cPinGroup::A3A4 => 0u32,
                I2cPinGroup::B6D7 => 1u32,
                I2cPinGroup::C0C1 => 2u32,
                I2cPinGroup::C2C3 => 3u32,
            },
    {
        match self {
            I2cPinGroup::A3A4 => 0,
            I2cPinGroup::B6D7 => 1,
            I2cPinGroup::C0C1 => 2,
            I2cPinGroup::C2C3 => 3,
        }
    }
}

#[derive(Clone, Copy, Debug, PartialEq, Eq, Structural)]
pub struct Config {
    pub frequency_hz: u32,
    pub pin_group: I2cPinGroup,
}

impl Config {
    pub fn new(pin_group: I2cPinGroup, frequency_hz: u32) -> (c: Self)
        ensures
            c == (Config { frequency_hz, pin_group }),
    {
        Config { frequency_hz, pin_group }
    }
}

impl Default for Config {
    /// PC0/PC1 at 100 kHz.
    fn default() -> (c: Self)
        ensures
            c == (Config { frequency_hz: I2C_DEFAULT_FREQ_HZ, pin_group: I2cPinGroup::C0C1 }),
    {
        Config::new(I2cPinGroup::C0C1, I2C_DEFAULT_FREQ_HZ)
    }
}

/// Which byte the target did not acknowledge.
#[derive(Clone, Copy, Debug, PartialEq, Eq, Structural)]
pub enum NoAcknowledgeSource {
    Address,
    Data,
    Unknown,
}

#[derive(Clone, Copy, Debug, PartialEq, Eq, Structural)]
pub enum I2cError {
    Timeout,
    NoAcknowledge(NoAcknowledgeSource),
    BusBusy,
    Other,
}

/// Types that stand for the pads of one pin group.
pub trait I2cPins {
    spec fn spec_pin_group() -> I2cPinGroup;

    fn pin_group(&self) -> (g: I2cPinGroup)
        ensures
            g == Self::spec_pin_group(),
    ;
}

impl<'a, SdaMode, SclMode> I2cPins for (&'a mut PA3<SdaMode>, &'a mut PA4<SclMode>) {
    open spec fn spec_pin_group() -> I2cPinGroup {
        I2cPinGroup::A3A4
    }

    fn pin_group(&self) -> (g: I2cPinGroup) {
        I2cPinGroup::A3A4
    }
}

impl<'a, SdaMode, SclMode> I2cPins for (&'a mut PB6<SdaMode>, &'a mut PD7<SclMode>) {
    open spec fn spec_pin_group() -> I2cPinGroup {
        I2cPinGroup::B6D7
    }

    fn pin_group(&self) -> (g: I2cPinGroup) {
        I2cPinGroup::B6D7
    }
}

impl<'a, SdaMode, SclMode> I2cPins for (&'a mut PC0<SdaMode>, &'a mut PC1<SclMode>) {
    open spec fn spec_pin_group() -> I2cPinGroup {
        I2cPinGroup::C0C1
    }

    fn pin_group(&self) -> (g: I2cPinGroup) {
        I2cPinGroup::C0C1
    }
}

impl<'a, SdaMode, SclMode> I2cPins for (&'a mut PC2<SdaMode>, &'a mut PC3<SclMode>) {
    open spec fn spec_pin_group() -> I2cPinGroup {
        I2cPinGroup::C2C3
    }

    fn pin_group(&self) -> (g: I2cPinGroup) {
        I2cPinGroup::C2C3
    }
}

/// `frequency_hz` brought into 1..=400 kHz.
pub open spec fn clamped_frequency(frequency_hz: u32) -> u32 {
    if frequency_hz < 1 {
        1
    } else if frequency_hz > I2C_MAX_FREQ_HZ {
        I2C_MAX_FREQ_HZ
    } else {
        frequency_hz
    }
}

pub fn clamp_frequency(frequency_hz: u32) -> (f: u32)
    ensures
        f == clamped_frequency(frequency_hz),
{
    if frequency_hz < 1 {
        1
    } else if frequency_hz > I2C_MAX_FREQ_HZ {
        I2C_MAX_FREQ_HZ
    } else {
        frequency_hz
    }
}

/// The speed register value for `frequency_hz` on a `sys_mhz` MHz clock:
/// a quarter of the clock per bus cycle, kept within 1..=255.
pub open spec fn speed_divider(sys_mhz: u8, frequency_hz: u32) -> u8 {
    let d = (sys_mhz * 1_000_000) / (4 * frequency_hz as int);
    if d < 1 {
        1
    } else if d > 255 {
        255
    } else {
        d as u8
    }
}

/// The writes that bring the master up: clock on, SPI pad mode off, speed,
/// master mode without clock stretching hold.
pub open spec fn init_ops(sys_mhz: u8, frequency_hz: u32) -> Seq<RegOp> {
    seq![
        RegOp::Modify8 { addr: REG_CLK_EN0, clear: 0, set: FLD_CLK0_I2C_EN },
        RegOp::Modify8 { addr: REG_SPI_SP, clear: FLD_SPI_ENABLE, set: 0 },
        RegOp::Write8 { addr: REG_I2C_SPEED, value: speed_divider(sys_mhz, frequency_hz) },
        RegOp::Modify8 { addr: REG_I2C_MODE, clear: FLD_I2C_HOLD_MASTER, set: FLD_I2C_MASTER_EN },
    ]
}

/// The I2C master and its bus frequency.
pub struct I2c {
    frequency_hz: u32,
}

impl I2c {
    pub closed spec fn frequency(&self) -> u32 {
        self.frequency_hz
    }

    /// Brings the master up for `config` on a `sys_mhz` MHz clock, once the
    /// pads of `config.pin_group` are routed.
    pub fn new(ops: &mut Vec<RegOp>, config: Config, sys_mhz: u8) -> (i: Self)
        ensures
            i.frequency() == clamped_frequency(config.frequency_hz),
            final(ops)@ == old(ops)@ + init_ops(sys_mhz, clamped_frequency(config.frequency_hz)),
    {
        let i2c = I2c { frequency_hz: clamp_frequency(config.frequency_hz) };
        i2c.init_registers(ops, sys_mhz);
        i2c
    }

    pub fn with_frequency(ops: &mut Vec<RegOp>, pin_group: I2cPinGroup, frequency_hz: u32, sys_mhz: u8) -> (i:
        Self)
        ensures
            i.frequency() == clamped_frequency(frequency_hz),
            final(ops)@ == old(ops)@ + init_ops(sys_mhz, clamped_frequency(frequency_hz)),
    {
        I2c::new(ops, Config::new(pin_group, frequency_hz), sys_mhz)
    }

    /// As `new`, on the pin group that `pins` stand for.
    pub fn with_pins<PINS: I2cPins>(ops: &mut Vec<RegOp>, pins: PINS, frequency_hz: u32, sys_mhz: u8) -> (r: (
        Self,
        I2cPinGroup,
    ))
        ensures
            r.1 == PINS::spec_pin_group(),
            r.0.frequency() == clamped_frequency(frequency_hz),
            final(ops)@ == old(ops)@ + init_ops(sys_mhz, clamped_frequency(frequency_hz)),
    {
        let group = pins.pin_group();
        (I2c::new(ops, Config::new(group, frequency_hz), sys_mhz), group)
    }

    pub fn frequency_hz(&self) -> (f: u32)
        ensures
            f == self.frequency(),
    {
        self.frequency_hz
    }

    /// Changes the bus frequency (clamped) and rewrites the divider.
    pub fn set_frequency(&mut self, ops: &mut Vec<RegOp>, frequency_hz: u32, sys_mhz: u8)
        ensures
            final(self).frequency() == clamped_frequency(frequency_hz),
            final(ops)@ == old(ops)@.push(
                RegOp::Write8 { addr: REG_I2C_SPEED, value: speed_divider(sys_mhz, clamped_frequency(frequency_hz)) },
            ),
    {
        self.frequency_hz = clamp_frequency(frequency_hz);
        self.write_speed_divider(ops, sys_mhz);
    }

    fn init_registers(&self, ops: &mut Vec<RegOp>, sys_mhz: u8)
        requires
            1 <= self.frequency() <= I2C_MAX_FREQ_HZ,
        ensures
            final(ops)@ == old(ops)@ + init_ops(sys_mhz, self.frequency()),
    {
        let ghost start = ops@;
        ops.push(RegOp::Modify8 { addr: REG_CLK_EN0, clear: 0, set: FLD_CLK0_I2C_EN });
        ops.push(RegOp::Modify8 { addr: REG_SPI_SP, clear: FLD_SPI_ENABLE, set: 0 });
        self.write_speed_divider(ops, sys_mhz);
        ops.push(RegOp::Modify8 { addr: REG_I2C_MODE, clear: FLD_I2C_HOLD_MASTER, set: FLD_I2C_MASTER_EN });
        assert(ops@ =~= start + init_ops(sys_mhz, self.frequency()));
    }

    fn write_speed_divider(&self, ops: &mut Vec<RegOp>, sys_mhz: u8)
        requires
            1 <= self.frequency() <= I2C_MAX_FREQ_HZ,
        ensures
            final(ops)@ == old(ops)@.push(
                RegOp::Write8 { addr: REG_I2C_SPEED, value: speed_divider(sys_mhz, self.frequency()) },
            ),
    {
        let sys_hz: u32 = sys_mhz as u32 * 1_000_000;
        let d = sys_hz / (4 * self.frequency_hz);
        let divider: u8 = if d < 1 {
            1
        } else if d > 255 {
            255
        } else {
            d as u8
        };
        ops.push(RegOp::Write8 { addr: REG_I2C_SPEED, value: divider });
    }
}

// ---------------------------------------------------------------------------
// Transactions
// ---------------------------------------------------------------------------

/// One operation of a transaction: bytes to send, or a number of bytes to
/// receive.
#[derive(Clone, Debug)]
pub enum I2cOperation {
    Write(Vec<u8>),
    Read(usize),
}

/// An operation as its kind and bytes (or length).
pub enum OperationView {
    Write(Seq<u8>),
    Read(nat),
}

pub open spec fn operation_view(op: I2cOperation) -> OperationView {
    match op {
        I2cOperation::Write(bytes) => OperationView::Write(bytes@),
        I2cOperation::Read(n) => OperationView::Read(n as nat),
    }
}

pub open spec fn operations_view(ops: Seq<I2cOperation>) -> Seq<OperationView> {
    ops.map_values(|op: I2cOperation| operation_view(op))
}

/// One bus command of a transaction.
#[derive(Clone, Copy, Debug, PartialEq, Eq, Structural)]
pub enum I2cStep {
    /// (Re)start addressing the target; `restart` resets the bus first.
    Start { restart: bool, address_byte: u8, read: bool },
    /// Send one byte.
    WriteByte(u8),
    /// Receive one byte; the last byte of a read is not acknowledged.
    ReadByte { last: bool },
}

/// The address byte for a read or a write of the 7-bit `address`.
pub open spec fn address_byte(address: u8, read: bool) -> u8 {
    if read {
        (address << 1u8) | FLD_I2C_WRITE_READ_BIT
    } else {
        address << 1u8
    }
}

/// The commands of one operation's data.
pub open spec fn body_steps(op: OperationView) -> Seq<I2cStep> {
    match op {
        OperationView::Write(bytes) => bytes.map_values(|b: u8| I2cStep::WriteByte(b)),
        OperationView::Read(n) => Seq::new(n, |i: int| I2cStep::ReadByte { last: i == n - 1 }),
    }
}

/// The direction of the last of `ops`, if any.
pub open spec fn last_direction(ops: Seq<OperationView>) -> Option<bool> {
    if ops.len() == 0 {
        None
    } else {
        Some(ops.last() is Read)
    }
}

/// The commands of a transaction with `address`: each operation's data,
/// preceded by a (re)start whenever the direction differs from that of the
/// operation before (a start after the first resets the bus).
pub open spec fn plan_steps(address: u8, ops: Seq<OperationView>) -> Seq<I2cStep>
    decreases ops.len(),
{
    if ops.len() == 0 {
        Seq::empty()
    } else {
        let before = ops.drop_last();
        let op = ops.last();
        let read = op is Read;
        let prev = last_direction(before);
        let start = if prev != Some(read) {
            seq![I2cStep::Start { restart: prev is Some, address_byte: address_byte(address, read), read }]
        } else {
            Seq::empty()
        };
        plan_steps(address, before) + start + body_steps(op)
    }
}

/// A transaction: its commands, and whether it ends with a stop (an empty
/// transaction touches the bus not at all).
pub struct I2cTransaction {
    pub steps: Vec<I2cStep>,
    pub stop: bool,
}

/// The commands of a transaction with `address` over `operations`.
pub fn transaction(address: u8, operations: &Vec<I2cOperation>) -> (t: I2cTransaction)
    ensures
        t.steps@ == plan_steps(address, operations_view(operations@)),
        t.stop == (operations@.len() > 0),
{
    let ghost opsv = operations_view(operations@);
    let mut steps: Vec<I2cStep> = Vec::new();
    let mut prev: Option<bool> = None;
    let mut i: usize = 0;
    while i < operations.len()
        invariant
            i <= operations@.len(),
            opsv == operations_view(operations@),
            steps@ == plan_steps(address, opsv.take(i as int)),
            prev == last_direction(opsv.take(i as int)),
        decreases operations@.len() - i,
    {
        let ghost before = steps@;
        let read = match &operations[i] {
            I2cOperation::Read(_) => true,
            I2cOperation::Write(_) => false,
        };
        let needs_start = match prev {
            Some(p) => p != read,
            None => true,
        };
        if needs_start {
            let byte = if read {
                (address << 1u8) | FLD_I2C_WRITE_READ_BIT
            } else {
                address << 1u8
            };
            steps.push(I2cStep::Start { restart: prev.is_some(), address_byte: byte, read });
        }
        let ghost mid = steps@;
        match &operations[i] {
            I2cOperation::Write(bytes) => {
                let mut j: usize = 0;
                while j < bytes.len()
                    invariant
                        j <= bytes@.len(),
                        steps@ == mid + bytes@.take(j as int).map_values(|b: u8| I2cStep::WriteByte(b)),
                    decreases bytes@.len() - j,
                {
                    steps.push(I2cStep::WriteByte(bytes[j]));
                    proof {
                        assert(bytes@.take(j + 1) =~= bytes@.take(j as int).push(bytes@[j as int]));
                        assert(bytes@.take(j + 1).map_values(|b: u8| I2cStep::WriteByte(b)) =~= bytes@.take(
                            j as int,
                        ).map_values(|b: u8| I2cStep::WriteByte(b)).push(I2cStep::WriteByte(bytes@[j as int])));
                    }
                    j = j + 1;
                }
                assert(bytes@.take(bytes@.len() as int) =~= bytes@);
            },
            I2cOperation::Read(n) => {
                let n = *n;
                let mut j: usize = 0;
                while j < n
                    invariant
                        j <= n,
                        steps@ == mid + Seq::new(j as nat, |k: int| I2cStep::ReadByte { last: k == n - 1 }),
                    decreases n - j,
                {
                    steps.push(I2cStep::ReadByte { last: j == n - 1 });
                    proof {
                        assert(Seq::new((j + 1) as nat, |k: int| I2cStep::ReadByte { last: k == n - 1 }) =~= Seq::new(
                            j as nat,
                            |k: int| I2cStep::ReadByte { last: k == n - 1 },
                        ).push(I2cStep::ReadByte { last: j == n - 1 }));
                    }
                    j = j + 1;
                }
            },
        }
        proof {
            let t = opsv.take(i + 1);
            assert(t.drop_last() =~= opsv.take(i as int));
            assert(t.last() == opsv[i as int]);
            assert(opsv[i as int] == operation_view(operations@[i as int]));
            assert(steps@ =~= plan_steps(address, t));
        }
        prev = Some(read);
        i = i + 1;
    }
    assert(opsv.take(operations@.len() as int) =~= opsv);
    I2cTransaction { steps, stop: operations.len() > 0 }
}

/// The register writes that issue one command.
pub open spec fn step_ops(step: I2cStep) -> Seq<RegOp> {
    match step {
        I2cStep::Start { restart, address_byte, read: _ } => (if restart {
            seq![
                RegOp::Write8 { addr: REG_RST0, value: FLD_RST0_I2C },
                RegOp::Write8 { addr: REG_RST0, value: 0 },
            ]
        } else {
            Seq::empty()
        }) + seq![
            RegOp::Write8 { addr: REG_I2C_ID, value: address_byte },
            RegOp::Write8 { addr: REG_I2C_CTRL, value: FLD_I2C_CMD_START | FLD_I2C_CMD_ID },
        ],
        I2cStep::WriteByte(b) => seq![
            RegOp::Write8 { addr: REG_I2C_DO, value: b },
            RegOp::Write8 { addr: REG_I2C_CTRL, value: FLD_I2C_CMD_DO },
        ],
        I2cStep::ReadByte { last } => seq![
            RegOp::Write8 {
                addr: REG_I2C_CTRL,
                value: FLD_I2C_CMD_DI | FLD_I2C_CMD_READ_ID | if last { FLD_I2C_CMD_ACK } else { 0 },
            },
        ],
    }
}

/// Issues one command.
pub fn issue_step(ops: &mut Vec<RegOp>, step: I2cStep)
    ensures
        final(ops)@ == old(ops)@ + step_ops(step),
{
    let ghost start = ops@;
    match step {
        I2cStep::Start { restart, address_byte, read: _ } => {
            if restart {
                ops.push(RegOp::Write8 { addr: REG_RST0, value: FLD_RST0_I2C });
                ops.push(RegOp::Write8 { addr: REG_RST0, value: 0 });
            }
            ops.push(RegOp::Write8 { addr: REG_I2C_ID, value: address_byte });
            ops.push(RegOp::Write8 { addr: REG_I2C_CTRL, value: FLD_I2C_CMD_START | FLD_I2C_CMD_ID });
        },
        I2cStep::WriteByte(b) => {
            ops.push(RegOp::Write8 { addr: REG_I2C_DO, value: b });
            ops.push(RegOp::Write8 { addr: REG_I2C_CTRL, value: FLD_I2C_CMD_DO });
        },
        I2cStep::ReadByte { last } => {
            let ack = if last {
                FLD_I2C_CMD_ACK
            } else {
                0
            };
            ops.push(RegOp::Write8 { addr: REG_I2C_CTRL, value: FLD_I2C_CMD_DI | FLD_I2C_CMD_READ_ID | ack });
        },
    }
    assert(ops@ =~= start + step_ops(step));
}

/// Issues the stop condition.
pub fn issue_stop(ops: &mut Vec<RegOp>)
    ensures
        final(ops)@ == old(ops)@.push(RegOp::Write8 { addr: REG_I2C_CTRL, value: FLD_I2C_CMD_STOP }),
{
    ops.push(RegOp::Write8 { addr: REG_I2C_CTRL, value: FLD_I2C_CMD_STOP });
}

/// One poll of the status register while a command runs.
#[derive(Clone, Copy, Debug, PartialEq, Eq, Structural)]
pub enum BusyPoll {
    /// The command finished with this status.
    Done(u8),
    /// Still busy; poll again (this many polls so far).
    Again(usize),
    /// Busy for all allowed polls.
    TimedOut,
}

/// The poll after `polls` busy reads reads `status`.
pub fn wait_while_busy_step(polls: usize, status: u8) -> (r: BusyPoll)
    requires
        polls < I2C_TIMEOUT_CYCLES,
    ensures
        status & FLD_I2C_CMD_BUSY == 0 ==> r == BusyPoll::Done(status),
        status & FLD_I2C_CMD_BUSY != 0 ==> r == if polls + 1 >= I2C_TIMEOUT_CYCLES {
            BusyPoll::TimedOut
        } else {
            BusyPoll::Again((polls + 1) as usize)
        },
{
    if status & FLD_I2C_CMD_BUSY == 0 {
        BusyPoll::Done(status)
    } else if polls + 1 >= I2C_TIMEOUT_CYCLES {
        BusyPoll::TimedOut
    } else {
        BusyPoll::Again(polls + 1)
    }
}

/// What a finished command's status means: a start or a sent byte that the
/// target did not acknowledge fails; a received byte always succeeds.
pub open spec fn step_outcome_spec(step: I2cStep, status: u8) -> Result<(), I2cError> {
    if status & FLD_I2C_NAK == 0 {
        Ok(())
    } else {
        match step {
            I2cStep::Start { .. } => Err(I2cError::NoAcknowledge(NoAcknowledgeSource::Address)),
            I2cStep::WriteByte(_) => Err(I2cError::NoAcknowledge(NoAcknowledgeSource::Data)),
            I2cStep::ReadByte { .. } => Ok(()),
        }
    }
}

pub fn step_outcome(step: I2cStep, status: u8) -> (r: Result<(), I2cError>)
    ensures
        r == step_outcome_spec(step, status),
{
    if status & FLD_I2C_NAK == 0 {
        return Ok(());
    }
    match step {
        I2cStep::Start { .. } => Err(I2cError::NoAcknowledge(NoAcknowledgeSource::Address)),
        I2cStep::WriteByte(_) => Err(I2cError::NoAcknowledge(NoAcknowledgeSource::Data)),
        I2cStep::ReadByte { .. } => Ok(()),
    }
}

/// The result of a transaction: its first failure, else that of the stop.
pub fn finish(result: Result<(), I2cError>, stop_result: Result<(), I2cError>) -> (r: Result<(), I2cError>)
    ensures
        r == match result {
            Err(e) => Err(e),
            Ok(()) => stop_result,
        },
{
    match result {
        Err(e) => Err(e),
        Ok(()) => stop_result,
    }
}

/// A transaction restarts the bus only when the direction changes, so a
/// transaction of writes alone holds exactly one start, first.
pub proof fn lemma_single_direction_single_start(address: u8, ops: Seq<OperationView>)
    requires
        ops.len() > 0,
        forall|i: int| 0 <= i < ops.len() ==> ops[i] is Write,
    ensures
        plan_steps(address, ops).len() > 0,
        plan_steps(address, ops)[0] == (I2cStep::Start {
            restart: false,
            address_byte: address_byte(address, false),
            read: false,
        }),
        forall|k: int| 1 <= k < plan_steps(address, ops).len() ==> !(plan_steps(address, ops)[k] is Start),
    decreases ops.len(),
{
    let before = ops.drop_last();
    if before.len() == 0 {
        assert(plan_steps(address, before) =~= Seq::empty());
        let s = plan_steps(address, ops);
        let body = body_steps(ops.last());
        assert forall|k: int| 1 <= k < s.len() implies !(s[k] is Start) by {
            assert(s[k] == body[k - 1]);
        }
    } else {
        lemma_single_direction_single_start(address, before);
        let s = plan_steps(address, ops);
        let p = plan_steps(address, before);
        let body = body_steps(ops.last());
        assert(s =~= p + body);
        assert forall|k: int| 1 <= k < s.len() implies !(s[k] is Start) by {
            if k >= p.len() {
                assert(s[k] == body[k - p.len()]);
            } else {
                assert(s[k] == p[k]);
            }
        }
    }
}

} // verus!
