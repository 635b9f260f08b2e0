//! The six PWM channels: clock divider, period and duty registers, and the
//! periods the driver remembers for duty updates.

use vstd::prelude::*;

use crate::mmio::{bits8_op, modify_bits8, RegOp};

verus! {

pub const RESET_BASE: u32 = 0x0080_0060;
pub const PWM_CYCLE_BASE: u32 = 0x0080_0794;
pub const REG_PWM_ENABLE: u32 = 0x0080_0780;
pub const REG_PWM0_ENABLE: u32 = 0x0080_0781;
pub const REG_PWM_CLK: u32 = 0x0080_0782;
pub const REG_PWM0_MODE: u32 = 0x0080_0783;
pub const REG_PWM_INVERT: u32 = 0x0080_0784;
pub const REG_PWM_POL: u32 = 0x0080_0786;

#[derive(Clone, Copy, Debug, PartialEq, Eq, Structural)]
pub enum Channel {
    Pwm0,
    Pwm1,
    Pwm2,
    Pwm3,
    Pwm4,
    Pwm5,
}

pub open spec fn channel_index(c: Channel) -> nat {
    match c {
        Channel::Pwm0 => 0,
        Channel::Pwm1 => 1,
        Channel::Pwm2 => 2,
        Channel::Pwm3 => 3,
        Channel::Pwm4 => 4,
        Channel::Pwm5 => 5,
    }
}

impl Channel {
    pub fn index(self) -> (i: usize)
        ensures
            i == channel_index(self),
    {
        match self {
            Channel::Pwm0 => 0,
            Channel::Pwm1 => 1,
            Channel::Pwm2 => 2,
            Channel::Pwm3 => 3,
            Channel::Pwm4 => 4,
            Channel::Pwm5 => 5,
        }
    }

    /// The channel's bit in the enable, invert and polarity registers.
    pub fn bit(self) -> (b: u8)
        ensures
            b == channel_bit(self),
    {
        match self {
            Channel::Pwm0 => 1,
            Channel::Pwm1 => 2,
            Channel::Pwm2 => 4,
            Channel::Pwm3 => 8,
            Channel::Pwm4 => 16,
            Channel::Pwm5 => 32,
        }
    }
}

/// `1 << index`.
pub open spec fn channel_bit(c: Channel) -> u8 {
    match c {
        Channel::Pwm0 => 1,
        Channel::Pwm1 => 2,
        Channel::Pwm2 => 4,
        Channel::Pwm3 => 8,
        Channel::Pwm4 => 16,
        Channel::Pwm5 => 32,
    }
}

/// The period and compare register of a channel.
pub open spec fn cycle_reg(c: Channel) -> u32 {
    (PWM_CYCLE_BASE + channel_index(c) * 4) as u32
}

/// The register word: duty in the low half, period in the high half.
pub open spec fn cycle_word(cycle_ticks: u16, duty_ticks: u16) -> u32 {
    (duty_ticks + cycle_ticks * 0x1_0000) as u32
}

/// The writes of `configure`: PWM0 first leaves count mode, then the
/// channel gets its period and its duty clamped to the period.
pub open spec fn configure_ops(c: Channel, cycle_ticks: u16, duty_ticks: u16) -> Seq<RegOp> {
    let duty = if duty_ticks <= cycle_ticks { duty_ticks } else { cycle_ticks };
    let write = RegOp::Write32 { addr: cycle_reg(c), value: cycle_word(cycle_ticks, duty) };
    if c == Channel::Pwm0 {
        seq![RegOp::Write8 { addr: REG_PWM0_MODE, value: 0 }, write]
    } else {
        seq![write]
    }
}

/// The read-modify-write that turns a channel on or off.
pub open spec fn enable_op(c: Channel, on: bool) -> RegOp {
    if c == Channel::Pwm0 {
        bits8_op(REG_PWM0_ENABLE, 0x01, on)
    } else {
        bits8_op(REG_PWM_ENABLE, channel_bit(c), on)
    }
}

/// The clock-enable and reset pulse that bring the PWM block up.
pub open spec fn enable_peripheral_ops() -> Seq<RegOp> {
    seq![
        RegOp::Modify8 { addr: (RESET_BASE + 3) as u32, clear: 0, set: 0x10 },
        RegOp::Write8 { addr: RESET_BASE, value: 0x10 },
        RegOp::Write8 { addr: RESET_BASE, value: 0 },
    ]
}

/// The PWM block, with the period last configured on each channel.
pub struct Pwm {
    period_ticks: [u16; 6],
}

impl View for Pwm {
    type V = Seq<u16>;

    closed spec fn view(&self) -> Seq<u16> {
        self.period_ticks@
    }
}

impl Pwm {
    /// Brings the block up; every channel's period starts at 0.
    pub fn new(ops: &mut Vec<RegOp>) -> (p: Self)
        ensures
            p@ == seq![0u16, 0, 0, 0, 0, 0],
            final(ops)@ == old(ops)@ + enable_peripheral_ops(),
    {
        let ghost start = ops@;
        ops.push(RegOp::Modify8 { addr: RESET_BASE + 3, clear: 0, set: 0x10 });
        ops.push(RegOp::Write8 { addr: RESET_BASE, value: 0x10 });
        ops.push(RegOp::Write8 { addr: RESET_BASE, value: 0 });
        assert(ops@ =~= start + enable_peripheral_ops());
        let p = Pwm { period_ticks: [0u16; 6] };
        assert(p@ =~= seq![0u16, 0, 0, 0, 0, 0]);
        p
    }

    /// Sets the PWM clock to `system_clock_hz / pwm_clock_hz` of the system
    /// clock; the divider must lie in 1..=256.
    pub fn set_clock(&mut self, ops: &mut Vec<RegOp>, system_clock_hz: u32, pwm_clock_hz: u32)
        requires
            pwm_clock_hz != 0,
            1 <= system_clock_hz / pwm_clock_hz <= 256,
        ensures
            final(self)@ == old(self)@,
            final(ops)@ == old(ops)@.push(
                RegOp::Write8 { addr: REG_PWM_CLK, value: (system_clock_hz / pwm_clock_hz - 1) as u8 },
            ),
    {
        let divider = system_clock_hz / pwm_clock_hz;
        ops.push(RegOp::Write8 { addr: REG_PWM_CLK, value: (divider - 1) as u8 });
    }

    /// Gives `channel` a period of `cycle_ticks` and a duty of `duty_ticks`
    /// (at most the period).
    pub fn configure(&mut self, ops: &mut Vec<RegOp>, channel: Channel, cycle_ticks: u16, duty_ticks: u16)
        ensures
            final(self)@ == old(self)@.update(channel_index(channel) as int, cycle_ticks),
            final(ops)@ == old(ops)@ + configure_ops(channel, cycle_ticks, duty_ticks),
    {
        let ghost start = ops@;
        let duty = if duty_ticks <= cycle_ticks { duty_ticks } else { cycle_ticks };
        let i = channel.index();
        self.period_ticks[i] = cycle_ticks;
        if channel == Channel::Pwm0 {
            ops.push(RegOp::Write8 { addr: REG_PWM0_MODE, value: 0 });
        }
        let addr = PWM_CYCLE_BASE + (i as u32) * 4;
        let value: u32 = duty as u32 + (cycle_ticks as u32) * 0x1_0000;
        ops.push(RegOp::Write32 { addr, value });
        assert(ops@ =~= start + configure_ops(channel, cycle_ticks, duty_ticks));
    }

    pub fn enable(&mut self, ops: &mut Vec<RegOp>, channel: Channel)
        ensures
            final(self)@ == old(self)@,
            final(ops)@ == old(ops)@.push(enable_op(channel, true)),
    {
        if channel == Channel::Pwm0 {
            ops.push(modify_bits8(REG_PWM0_ENABLE, 0x01, true));
        } else {
            ops.push(modify_bits8(REG_PWM_ENABLE, channel.bit(), true));
        }
    }

    pub fn disable(&mut self, ops: &mut Vec<RegOp>, channel: Channel)
        ensures
            final(self)@ == old(self)@,
            final(ops)@ == old(ops)@.push(enable_op(channel, false)),
    {
        if channel == Channel::Pwm0 {
            ops.push(modify_bits8(REG_PWM0_ENABLE, 0x01, false));
        } else {
            ops.push(modify_bits8(REG_PWM_ENABLE, channel.bit(), false));
        }
    }

    /// Keeps the channel's period and sets its duty.
    pub fn set_duty_ticks(&mut self, ops: &mut Vec<RegOp>, channel: Channel, duty_ticks: u16)
        ensures
            final(self)@ == old(self)@,
            final(ops)@ == old(ops)@ + configure_ops(
                channel,
                old(self)@[channel_index(channel) as int],
                duty_ticks,
            ),
    {
        let period = self.period_ticks[channel.index()];
        self.configure(ops, channel, period, duty_ticks);
        assert(self@ =~= old(self)@);
    }

    /// Sets the duty to `numerator / denominator` of the period, rounded
    /// down (and cut to 16 bits).
    pub fn set_duty_fraction(&mut self, ops: &mut Vec<RegOp>, channel: Channel, numerator: u16, denominator: u16)
        requires
            denominator != 0,
        ensures
            final(self)@ == old(self)@,
            final(ops)@ == old(ops)@ + configure_ops(
                channel,
                old(self)@[channel_index(channel) as int],
                duty_fraction(old(self)@[channel_index(channel) as int], numerator, denominator),
            ),
    {
        let period = self.period_ticks[channel.index()] as u32;
        assert(period * (numerator as u32) <= 0xffff * 0xffff) by (nonlinear_arith)
            requires
                period <= 0xffff,
                numerator <= 0xffff,
        ;
        let duty = ((period * numerator as u32) / denominator as u32) as u16;
        self.set_duty_ticks(ops, channel, duty);
    }

    /// Sets the duty to `level / 255` of the period.
    pub fn set_duty_8bit(&mut self, ops: &mut Vec<RegOp>, channel: Channel, level: u8)
        ensures
            final(self)@ == old(self)@,
            final(ops)@ == old(ops)@ + configure_ops(
                channel,
                old(self)@[channel_index(channel) as int],
                duty_fraction(old(self)@[channel_index(channel) as int], level as u16, 255),
            ),
    {
        self.set_duty_fraction(ops, channel, level as u16, 255);
    }

    pub fn set_inverted(&mut self, ops: &mut Vec<RegOp>, channel: Channel, inverted: bool)
        ensures
            final(self)@ == old(self)@,
            final(ops)@ == old(ops)@.push(bits8_op(REG_PWM_INVERT, channel_bit(channel), inverted)),
    {
        ops.push(modify_bits8(REG_PWM_INVERT, channel.bit(), inverted));
    }

    pub fn set_polarity_active_high(&mut self, ops: &mut Vec<RegOp>, channel: Channel, active_high: bool)
        ensures
            final(self)@ == old(self)@,
            final(ops)@ == old(ops)@.push(bits8_op(REG_PWM_POL, channel_bit(channel), active_high)),
    {
        ops.push(modify_bits8(REG_PWM_POL, channel.bit(), active_high));
    }

    /// The period last configured on `channel`.
    pub fn period_ticks(&self, channel: Channel) -> (p: u16)
        ensures
            p == self@[channel_index(channel) as int],
    {
        self.period_ticks[channel.index()]
    }
}

/// `period * numerator / denominator`, cut to 16 bits.
pub open spec fn duty_fraction(period: u16, numerator: u16, denominator: u16) -> u16 {
    ((period * numerator) / (denominator as int)) as u16
}

} // verus!
