//! SAR ADC: configuration register programs for GPIO and battery inputs,
//! and the filter that turns eight DMA samples into millivolts.

use vstd::prelude::*;
use vstd::relations::{sorted_by, total_ordering};
use vstd::seq_lib::{lemma_sorted_unique, to_multiset_build, to_multiset_contains, to_multiset_update};
use crate::gpio::{function_ops, pinmux_table, port_reg, input_enable_op, set_function_raw, set_input_enabled_raw,
    set_output_enabled_raw, write_data_raw, PinFunction, RawPin, decode_checked, lemma_raw_pin_round_trip,
    lemma_raw_pin_bits, mask_bit};
use crate::mmio::{bits8_op, RegOp};
use crate::startup::PmGlobals;

verus! {

pub const REG_RST1: u32 = 0x0080_0061;
pub const FLD_RST1_ADC: u8 = 0x20;
pub const REG_DFIFO2_ADDR: u32 = 0x0080_0c08;
pub const REG_DFIFO2_SIZE: u32 = 0x0080_0c0a;
pub const REG_DFIFO2_ADD_HI: u32 = 0x0080_0c0b;
pub const REG_DFIFO_MODE: u32 = 0x0080_0c10;
pub const FLD_AUD_DFIFO2_IN: u8 = 0x04;
pub const AREG_CLK_SETTING: u8 = 0x82;
pub const FLD_CLK_24M_TO_SAR_EN: u8 = 0x40;
pub const AREG_ADC_VREF: u8 = 0xe7;
pub const AREG_ADC_MISC_INPUT: u8 = 0xe8;
pub const AREG_ADC_RESOLUTION_MISC: u8 = 0xec;
pub const AREG_ADC_STATE_LENGTH_MC: u8 = 0xef;
pub const AREG_ADC_STATE_LENGTH_C: u8 = 0xf0;
pub const AREG_ADC_STATE_LENGTH_S: u8 = 0xf1;
pub const AREG_ADC_CHANNEL_ENABLE: u8 = 0xf2;
pub const AREG_ADC_SAMPLING_CLK_DIV: u8 = 0xf4;
pub const AREG_ADC_MISC_L: u8 = 0xf7;
pub const AREG_ADC_MISC_H: u8 = 0xf8;
pub const AREG_ADC_VBAT_DIV: u8 = 0xf9;
pub const AREG_ADC_AIN_SCALE: u8 = 0xfa;
pub const AREG_ADC_PGA_BOOST: u8 = 0xfb;
pub const AREG_ADC_PGA_CTRL: u8 = 0xfc;

/// Samples taken per conversion.
pub const ADC_SAMPLE_NUM: usize = 8;
/// Microseconds between two samples at 23 kHz.
pub const ADC_WAIT_US_23K: u32 = 90;

#[derive(Clone, Copy, Debug, PartialEq, Eq, Structural)]
pub enum AdcReference {
    V0P6,
    V0P9,
    V1P2,
    VbatDivided,
}

#[derive(Clone, Copy, Debug, PartialEq, Eq, Structural)]
pub enum AdcVbatDivider {
    Off,
    Div1F4,
    Div1F3,
    Div1F2,
}

#[derive(Clone, Copy, Debug, PartialEq, Eq, Structural)]
pub enum AdcResolution {
    Bits8,
    Bits10,
    Bits12,
    Bits14,
}

#[derive(Clone, Copy, Debug, PartialEq, Eq, Structural)]
pub enum AdcInputMode {
    SingleEnded,
    Differential,
}

#[derive(Clone, Copy, Debug, PartialEq, Eq, Structural)]
pub enum AdcSampleCycles {
    Cycles3,
    Cycles6,
    Cycles9,
    Cycles12,
    Cycles15,
    Cycles18,
    Cycles21,
    Cycles24,
    Cycles27,
    Cycles30,
    Cycles33,
    Cycles36,
    Cycles39,
    Cycles42,
    Cycles45,
    Cycles48,
}

#[derive(Clone, Copy, Debug, PartialEq, Eq, Structural)]
pub enum AdcChannel {
    Left,
    Right,
    Misc,
    Rns,
}

#[derive(Clone, Copy, Debug, PartialEq, Eq, Structural)]
pub enum AdcPrescaler {
    Div1,
    Div1F2,
    Div1F4,
    Div1F8,
}

#[derive(Clone, Copy, Debug, PartialEq, Eq, Structural)]
pub enum AdcMode {
    Normal,
    Rns,
}

#[derive(Clone, Copy, Debug, PartialEq, Eq, Structural)]
pub struct AdcConfig {
    pub channel: AdcChannel,
    pub reference: AdcReference,
    pub vbat_divider: AdcVbatDivider,
    pub resolution: AdcResolution,
    pub sample_cycles: AdcSampleCycles,
    pub prescaler: AdcPrescaler,
    pub mode: AdcMode,
    pub input_mode: AdcInputMode,
}

/// The misc channel, differential, 1.2 V reference, 14 bits, 6 cycles,
/// 1/8 prescaler, no battery divider.
pub open spec fn default_adc_config() -> AdcConfig {
    AdcConfig {
        channel: AdcChannel::Misc,
        reference: AdcReference::V1P2,
        vbat_divider: AdcVbatDivider::Off,
        resolution: AdcResolution::Bits14,
        sample_cycles: AdcSampleCycles::Cycles6,
        prescaler: AdcPrescaler::Div1F8,
        mode: AdcMode::Normal,
        input_mode: AdcInputMode::Differential,
    }
}

impl AdcConfig {
    pub fn gpio_single_ended() -> (c: Self)
        ensures
            c == default_adc_config(),
    {
        AdcConfig {
            channel: AdcChannel::Misc,
            reference: AdcReference::V1P2,
            vbat_divider: AdcVbatDivider::Off,
            resolution: AdcResolution::Bits14,
            sample_cycles: AdcSampleCycles::Cycles6,
            prescaler: AdcPrescaler::Div1F8,
            mode: AdcMode::Normal,
            input_mode: AdcInputMode::Differential,
        }
    }

    pub fn vbat() -> (c: Self)
        ensures
            c == default_adc_config(),
    {
        AdcConfig {
            channel: AdcChannel::Misc,
            reference: AdcReference::V1P2,
            vbat_divider: AdcVbatDivider::Off,
            resolution: AdcResolution::Bits14,
            sample_cycles: AdcSampleCycles::Cycles6,
            prescaler: AdcPrescaler::Div1F8,
            mode: AdcMode::Normal,
            input_mode: AdcInputMode::Differential,
        }
    }
}

#[derive(Clone, Copy, Debug, PartialEq, Eq, Structural)]
pub enum AdcGpioPin {
    Pb0,
    Pb1,
    Pb2,
    Pb3,
    Pb4,
    Pb5,
    Pb6,
    Pb7,
    Pc4,
    Pc5,
}

/// Port and bit of an ADC input pad.
pub open spec fn adc_pad(pin: AdcGpioPin) -> (u8, u8) {
    match pin {
        AdcGpioPin::Pb0 => (1, 0),
        AdcGpioPin::Pb1 => (1, 1),
        AdcGpioPin::Pb2 => (1, 2),
        AdcGpioPin::Pb3 => (1, 3),
        AdcGpioPin::Pb4 => (1, 4),
        AdcGpioPin::Pb5 => (1, 5),
        AdcGpioPin::Pb6 => (1, 6),
        AdcGpioPin::Pb7 => (1, 7),
        AdcGpioPin::Pc4 => (2, 4),
        AdcGpioPin::Pc5 => (2, 5),
    }
}

/// The analog input channel number of an ADC pad.
pub open spec fn adc_channel_index(pin: AdcGpioPin) -> u8 {
    match pin {
        AdcGpioPin::Pb0 => 1,
        AdcGpioPin::Pb1 => 2,
        AdcGpioPin::Pb2 => 3,
        AdcGpioPin::Pb3 => 4,
        AdcGpioPin::Pb4 => 5,
        AdcGpioPin::Pb5 => 6,
        AdcGpioPin::Pb6 => 7,
        AdcGpioPin::Pb7 => 8,
        AdcGpioPin::Pc4 => 9,
        AdcGpioPin::Pc5 => 10,
    }
}

impl AdcGpioPin {
    /// The raw pin value (`port << 8 | 1 << bit`) of the pad.
    pub fn raw_pin(self) -> (r: u16)
        ensures
            r == adc_pad(self).0 as int * 256 + pow2_bit(adc_pad(self).1),
    {
        match self {
            AdcGpioPin::Pb0 => 0x0101,
            AdcGpioPin::Pb1 => 0x0102,
            AdcGpioPin::Pb2 => 0x0104,
            AdcGpioPin::Pb3 => 0x0108,
            AdcGpioPin::Pb4 => 0x0110,
            AdcGpioPin::Pb5 => 0x0120,
            AdcGpioPin::Pb6 => 0x0140,
            AdcGpioPin::Pb7 => 0x0180,
            AdcGpioPin::Pc4 => 0x0210,
            AdcGpioPin::Pc5 => 0x0220,
        }
    }

    pub fn input_channel_index(self) -> (i: u8)
        ensures
            i == adc_channel_index(self),
    {
        match self {
            AdcGpioPin::Pb0 => 1,
            AdcGpioPin::Pb1 => 2,
            AdcGpioPin::Pb2 => 3,
            AdcGpioPin::Pb3 => 4,
            AdcGpioPin::Pb4 => 5,
            AdcGpioPin::Pb5 => 6,
            AdcGpioPin::Pb6 => 7,
            AdcGpioPin::Pb7 => 8,
            AdcGpioPin::Pc4 => 9,
            AdcGpioPin::Pc5 => 10,
        }
    }
}

pub open spec fn pow2_bit(bit: u8) -> int {
    if bit == 0 {
        1
    } else if bit == 1 {
        2
    } else if bit == 2 {
        4
    } else if bit == 3 {
        8
    } else if bit == 4 {
        16
    } else if bit == 5 {
        32
    } else if bit == 6 {
        64
    } else {
        128
    }
}

/// A conversion in millivolts and the spread of its samples.
#[derive(Clone, Copy, Debug, PartialEq, Eq, Structural)]
pub struct AdcSample {
    pub millivolts: u32,
    pub fluctuation_mv: u32,
}

// ---------------------------------------------------------------------------
// Register programs
// ---------------------------------------------------------------------------

pub fn adc_reset_module(ops: &mut Vec<RegOp>)
    ensures
        final(ops)@ == old(ops)@ + seq![
            RegOp::Write8 { addr: REG_RST1, value: FLD_RST1_ADC },
            RegOp::Write8 { addr: REG_RST1, value: 0 },
        ],
{
    let ghost start = ops@;
    ops.push(RegOp::Write8 { addr: REG_RST1, value: FLD_RST1_ADC });
    ops.push(RegOp::Write8 { addr: REG_RST1, value: 0 });
    assert(ops@ =~= start + seq![
        RegOp::Write8 { addr: REG_RST1, value: FLD_RST1_ADC },
        RegOp::Write8 { addr: REG_RST1, value: 0 },
    ]);
}

pub fn adc_enable_clk_24m(ops: &mut Vec<RegOp>, enable: bool)
    ensures
        final(ops)@ == old(ops)@.push(
            if enable {
                RegOp::AnalogModify { reg: AREG_CLK_SETTING, clear: 0, set: FLD_CLK_24M_TO_SAR_EN }
            } else {
                RegOp::AnalogModify { reg: AREG_CLK_SETTING, clear: FLD_CLK_24M_TO_SAR_EN, set: 0 }
            },
        ),
{
    if enable {
        ops.push(RegOp::AnalogModify { reg: AREG_CLK_SETTING, clear: 0, set: FLD_CLK_24M_TO_SAR_EN });
    } else {
        ops.push(RegOp::AnalogModify { reg: AREG_CLK_SETTING, clear: FLD_CLK_24M_TO_SAR_EN, set: 0 });
    }
}

pub fn adc_set_sample_clk(ops: &mut Vec<RegOp>, div: u8)
    ensures
        final(ops)@ == old(ops)@.push(RegOp::AnalogWrite { reg: AREG_ADC_SAMPLING_CLK_DIV, value: div & 0x07 }),
{
    ops.push(RegOp::AnalogWrite { reg: AREG_ADC_SAMPLING_CLK_DIV, value: div & 0x07 });
}

/// The state machine lengths: the low bytes of `r_max_mc` and `r_max_c`,
/// and their ninth and tenth bits packed with `r_max_s`.
pub fn adc_set_state_length(ops: &mut Vec<RegOp>, r_max_mc: u16, r_max_c: u16, r_max_s: u8)
    ensures
        final(ops)@ == old(ops)@ + seq![
            RegOp::AnalogWrite { reg: AREG_ADC_STATE_LENGTH_MC, value: (r_max_mc % 256) as u8 },
            RegOp::AnalogWrite { reg: AREG_ADC_STATE_LENGTH_C, value: (r_max_c % 256) as u8 },
            RegOp::AnalogWrite {
                reg: AREG_ADC_STATE_LENGTH_S,
                value: ((((r_max_mc / 256) % 256) as u8) << 6u8) | ((((r_max_c / 256) % 256) as u8) << 4u8) | (r_max_s & 0x0f),
            },
        ],
{
    let ghost start = ops@;
    ops.push(RegOp::AnalogWrite { reg: AREG_ADC_STATE_LENGTH_MC, value: (r_max_mc % 256) as u8 });
    ops.push(RegOp::AnalogWrite { reg: AREG_ADC_STATE_LENGTH_C, value: (r_max_c % 256) as u8 });
    let hi_mc = ((r_max_mc / 256) % 256) as u8;
    let hi_c = ((r_max_c / 256) % 256) as u8;
    ops.push(RegOp::AnalogWrite { reg: AREG_ADC_STATE_LENGTH_S, value: (hi_mc << 6u8) | (hi_c << 4u8) | (r_max_s & 0x0f) });
    assert(ops@ =~= start + seq![
        RegOp::AnalogWrite { reg: AREG_ADC_STATE_LENGTH_MC, value: (r_max_mc % 256) as u8 },
        RegOp::AnalogWrite { reg: AREG_ADC_STATE_LENGTH_C, value: (r_max_c % 256) as u8 },
        RegOp::AnalogWrite {
            reg: AREG_ADC_STATE_LENGTH_S,
            value: ((((r_max_mc / 256) % 256) as u8) << 6u8) | ((((r_max_c / 256) % 256) as u8) << 4u8) | (r_max_s & 0x0f),
        },
    ]);
}

pub fn adc_set_channel_enable_and_max_state_count(ops: &mut Vec<RegOp>, channel_bits: u8, count: u8)
    ensures
        final(ops)@ == old(ops)@.push(
            RegOp::AnalogWrite { reg: AREG_ADC_CHANNEL_ENABLE, value: channel_bits | ((count & 0x07) << 4u8) },
        ),
{
    ops.push(RegOp::AnalogWrite { reg: AREG_ADC_CHANNEL_ENABLE, value: channel_bits | ((count & 0x07) << 4u8) });
}

/// Points the misc channel DMA at the buffer at `addr` of `size_bytes`.
pub fn adc_config_misc_channel_buffer(ops: &mut Vec<RegOp>, addr: usize, size_bytes: usize)
    ensures
        final(ops)@ == old(ops)@ + seq![
            RegOp::Write16 { addr: REG_DFIFO2_ADDR, value: (addr % 0x1_0000) as u16 },
            RegOp::Write8 { addr: REG_DFIFO2_ADD_HI, value: ((addr / 0x1_0000) % 256) as u8 },
            RegOp::Write8 { addr: REG_DFIFO2_SIZE, value: (((size_bytes / 16) % 256 + 255) % 256) as u8 },
        ],
{
    let ghost start = ops@;
    ops.push(RegOp::Write16 { addr: REG_DFIFO2_ADDR, value: (addr % 0x1_0000) as u16 });
    ops.push(RegOp::Write8 { addr: REG_DFIFO2_ADD_HI, value: ((addr / 0x1_0000) % 256) as u8 });
    ops.push(RegOp::Write8 { addr: REG_DFIFO2_SIZE, value: (((size_bytes / 16) % 256) as u8).wrapping_sub(1) });
    assert(ops@ =~= start + seq![
        RegOp::Write16 { addr: REG_DFIFO2_ADDR, value: (addr % 0x1_0000) as u16 },
        RegOp::Write8 { addr: REG_DFIFO2_ADD_HI, value: ((addr / 0x1_0000) % 256) as u8 },
        RegOp::Write8 { addr: REG_DFIFO2_SIZE, value: (((size_bytes / 16) % 256 + 255) % 256) as u8 },
    ]);
}

pub fn dfifo_enable_dfifo2(ops: &mut Vec<RegOp>)
    ensures
        final(ops)@ == old(ops)@.push(RegOp::Modify8 { addr: REG_DFIFO_MODE, clear: 0, set: FLD_AUD_DFIFO2_IN }),
{
    ops.push(RegOp::Modify8 { addr: REG_DFIFO_MODE, clear: 0, set: FLD_AUD_DFIFO2_IN });
}

pub fn dfifo_disable_dfifo2(ops: &mut Vec<RegOp>)
    ensures
        final(ops)@ == old(ops)@.push(RegOp::Modify8 { addr: REG_DFIFO_MODE, clear: FLD_AUD_DFIFO2_IN, set: 0 }),
{
    ops.push(RegOp::Modify8 { addr: REG_DFIFO_MODE, clear: FLD_AUD_DFIFO2_IN, set: 0 });
}

/// Power bits of the PGA control register are active-low: set to power down.
pub open spec fn pga_power_op(bit: u8, on: bool) -> RegOp {
    if on {
        RegOp::AnalogModify { reg: AREG_ADC_PGA_CTRL, clear: bit, set: 0 }
    } else {
        RegOp::AnalogModify { reg: AREG_ADC_PGA_CTRL, clear: 0, set: bit }
    }
}

fn pga_power(ops: &mut Vec<RegOp>, bit: u8, on: bool)
    ensures
        final(ops)@ == old(ops)@.push(pga_power_op(bit, on)),
{
    if on {
        ops.push(RegOp::AnalogModify { reg: AREG_ADC_PGA_CTRL, clear: bit, set: 0 });
    } else {
        ops.push(RegOp::AnalogModify { reg: AREG_ADC_PGA_CTRL, clear: 0, set: bit });
    }
}

pub fn adc_power_on_sar_adc(ops: &mut Vec<RegOp>, on: bool)
    ensures
        final(ops)@ == old(ops)@.push(pga_power_op(0x20, on)),
{
    pga_power(ops, 0x20, on);
}

pub fn adc_power_on_pga_left(ops: &mut Vec<RegOp>, on: bool)
    ensures
        final(ops)@ == old(ops)@.push(pga_power_op(0x40, on)),
{
    pga_power(ops, 0x40, on);
}

pub fn adc_power_on_pga_right(ops: &mut Vec<RegOp>, on: bool)
    ensures
        final(ops)@ == old(ops)@.push(pga_power_op(0x80, on)),
{
    pga_power(ops, 0x80, on);
}

/// Gain and bias currents at 100%.
pub fn adc_set_gain_bias_per100(ops: &mut Vec<RegOp>)
    ensures
        final(ops)@ == old(ops)@.push(RegOp::AnalogModify { reg: AREG_ADC_PGA_CTRL, clear: 0x0f, set: 0x05 }),
{
    ops.push(RegOp::AnalogModify { reg: AREG_ADC_PGA_CTRL, clear: 0x0f, set: 0x05 });
}

pub fn adc_set_reference_v1p2_misc(ops: &mut Vec<RegOp>)
    ensures
        final(ops)@ == old(ops)@.push(RegOp::AnalogModify { reg: AREG_ADC_VREF, clear: 0x30, set: 0x20 }),
{
    ops.push(RegOp::AnalogModify { reg: AREG_ADC_VREF, clear: 0x30, set: 0x20 });
}

pub open spec fn vbat_divider_code(d: AdcVbatDivider) -> u8 {
    match d {
        AdcVbatDivider::Off => 0,
        AdcVbatDivider::Div1F4 => 1,
        AdcVbatDivider::Div1F3 => 2,
        AdcVbatDivider::Div1F2 => 3,
    }
}

pub fn adc_set_vbat_divider(ops: &mut Vec<RegOp>, divider: AdcVbatDivider)
    ensures
        final(ops)@ == old(ops)@.push(
            RegOp::AnalogModify { reg: AREG_ADC_VBAT_DIV, clear: 0x0c, set: (vbat_divider_code(divider) * 4) as u8 },
        ),
{
    let bits: u8 = match divider {
        AdcVbatDivider::Off => 0,
        AdcVbatDivider::Div1F4 => 1,
        AdcVbatDivider::Div1F3 => 2,
        AdcVbatDivider::Div1F2 => 3,
    };
    ops.push(RegOp::AnalogModify { reg: AREG_ADC_VBAT_DIV, clear: 0x0c, set: bits * 4 });
}

/// Differential input between channels `positive` and `negative`.
pub fn adc_set_misc_input_differential(ops: &mut Vec<RegOp>, positive: u8, negative: u8)
    ensures
        final(ops)@ == old(ops)@ + seq![
            RegOp::AnalogWrite { reg: AREG_ADC_MISC_INPUT, value: (negative & 0x0f) | ((positive & 0x0f) << 4u8) },
            RegOp::AnalogModify { reg: AREG_ADC_RESOLUTION_MISC, clear: 0, set: 0x40 },
        ],
{
    let ghost start = ops@;
    ops.push(RegOp::AnalogWrite { reg: AREG_ADC_MISC_INPUT, value: (negative & 0x0f) | ((positive & 0x0f) << 4u8) });
    ops.push(RegOp::AnalogModify { reg: AREG_ADC_RESOLUTION_MISC, clear: 0, set: 0x40 });
    assert(ops@ =~= start + seq![
        RegOp::AnalogWrite { reg: AREG_ADC_MISC_INPUT, value: (negative & 0x0f) | ((positive & 0x0f) << 4u8) },
        RegOp::AnalogModify { reg: AREG_ADC_RESOLUTION_MISC, clear: 0, set: 0x40 },
    ]);
}

pub open spec fn resolution_code(r: AdcResolution) -> u8 {
    match r {
        AdcResolution::Bits8 => 0,
        AdcResolution::Bits10 => 1,
        AdcResolution::Bits12 => 2,
        AdcResolution::Bits14 => 3,
    }
}

pub fn adc_set_resolution_misc(ops: &mut Vec<RegOp>, resolution: AdcResolution)
    ensures
        final(ops)@ == old(ops)@.push(
            RegOp::AnalogModify { reg: AREG_ADC_RESOLUTION_MISC, clear: 0x03, set: resolution_code(resolution) },
        ),
{
    let bits: u8 = match resolution {
        AdcResolution::Bits8 => 0,
        AdcResolution::Bits10 => 1,
        AdcResolution::Bits12 => 2,
        AdcResolution::Bits14 => 3,
    };
    ops.push(RegOp::AnalogModify { reg: AREG_ADC_RESOLUTION_MISC, clear: 0x03, set: bits });
}

/// The field code of a sample time: (cycles / 3) - 1.
pub open spec fn sample_cycles_code(c: AdcSampleCycles) -> u8 {
    match c {
        AdcSampleCycles::Cycles3 => 0,
        AdcSampleCycles::Cycles6 => 1,
        AdcSampleCycles::Cycles9 => 2,
        AdcSampleCycles::Cycles12 => 3,
        AdcSampleCycles::Cycles15 => 4,
        AdcSampleCycles::Cycles18 => 5,
        AdcSampleCycles::Cycles21 => 6,
        AdcSampleCycles::Cycles24 => 7,
        AdcSampleCycles::Cycles27 => 8,
        AdcSampleCycles::Cycles30 => 9,
        AdcSampleCycles::Cycles33 => 10,
        AdcSampleCycles::Cycles36 => 11,
        AdcSampleCycles::Cycles39 => 12,
        AdcSampleCycles::Cycles42 => 13,
        AdcSampleCycles::Cycles45 => 14,
        AdcSampleCycles::Cycles48 => 15,
    }
}

pub fn adc_set_sample_cycles_misc(ops: &mut Vec<RegOp>, cycles: AdcSampleCycles)
    ensures
        final(ops)@ == old(ops)@.push(
            RegOp::AnalogModify { reg: AREG_ADC_MISC_H, clear: 0x0f, set: sample_cycles_code(cycles) },
        ),
{
    let bits: u8 = match cycles {
        AdcSampleCycles::Cycles3 => 0,
        AdcSampleCycles::Cycles6 => 1,
        AdcSampleCycles::Cycles9 => 2,
        AdcSampleCycles::Cycles12 => 3,
        AdcSampleCycles::Cycles15 => 4,
        AdcSampleCycles::Cycles18 => 5,
        AdcSampleCycles::Cycles21 => 6,
        AdcSampleCycles::Cycles24 => 7,
        AdcSampleCycles::Cycles27 => 8,
        AdcSampleCycles::Cycles30 => 9,
        AdcSampleCycles::Cycles33 => 10,
        AdcSampleCycles::Cycles36 => 11,
        AdcSampleCycles::Cycles39 => 12,
        AdcSampleCycles::Cycles42 => 13,
        AdcSampleCycles::Cycles45 => 14,
        AdcSampleCycles::Cycles48 => 15,
    };
    ops.push(RegOp::AnalogModify { reg: AREG_ADC_MISC_H, clear: 0x0f, set: bits });
}

pub open spec fn prescaler_code(p: AdcPrescaler) -> u8 {
    match p {
        AdcPrescaler::Div1 => 0,
        AdcPrescaler::Div1F2 => 1,
        AdcPrescaler::Div1F4 => 2,
        AdcPrescaler::Div1F8 => 3,
    }
}

pub fn adc_set_prescaler(ops: &mut Vec<RegOp>, prescaler: AdcPrescaler)
    ensures
        final(ops)@ == old(ops)@.push(
            RegOp::AnalogModify { reg: AREG_ADC_AIN_SCALE, clear: 0xc0, set: (prescaler_code(prescaler) * 64) as u8 },
        ),
{
    let bits: u8 = match prescaler {
        AdcPrescaler::Div1 => 0,
        AdcPrescaler::Div1F2 => 1,
        AdcPrescaler::Div1F4 => 2,
        AdcPrescaler::Div1F8 => 3,
    };
    ops.push(RegOp::AnalogModify { reg: AREG_ADC_AIN_SCALE, clear: 0xc0, set: bits * 64 });
}

pub fn adc_set_mode_raw(ops: &mut Vec<RegOp>, mode: AdcMode)
    ensures
        final(ops)@ == old(ops)@.push(
            if mode == AdcMode::Normal {
                RegOp::AnalogModify { reg: AREG_ADC_PGA_CTRL, clear: 0x10, set: 0 }
            } else {
                RegOp::AnalogModify { reg: AREG_ADC_PGA_CTRL, clear: 0, set: 0x10 }
            },
        ),
{
    match mode {
        AdcMode::Normal => ops.push(RegOp::AnalogModify { reg: AREG_ADC_PGA_CTRL, clear: 0x10, set: 0 }),
        AdcMode::Rns => ops.push(RegOp::AnalogModify { reg: AREG_ADC_PGA_CTRL, clear: 0, set: 0x10 }),
    }
}

/// The common bring-up: SAR powered down, module reset, 24 MHz clock on,
/// sample clock divider 5, both PGAs off, 100% gain bias, DMA channel off,
/// state lengths 1023/0/15.
pub open spec fn common_init_ops() -> Seq<RegOp> {
    seq![
        pga_power_op(0x20, false),
        RegOp::Write8 { addr: REG_RST1, value: FLD_RST1_ADC },
        RegOp::Write8 { addr: REG_RST1, value: 0 },
        RegOp::AnalogModify { reg: AREG_CLK_SETTING, clear: 0, set: FLD_CLK_24M_TO_SAR_EN },
        RegOp::AnalogWrite { reg: AREG_ADC_SAMPLING_CLK_DIV, value: 5 },
        pga_power_op(0x40, false),
        pga_power_op(0x80, false),
        RegOp::AnalogModify { reg: AREG_ADC_PGA_CTRL, clear: 0x0f, set: 0x05 },
        RegOp::Modify8 { addr: REG_DFIFO_MODE, clear: FLD_AUD_DFIFO2_IN, set: 0 },
        RegOp::AnalogWrite { reg: AREG_ADC_STATE_LENGTH_MC, value: 0xff },
        RegOp::AnalogWrite { reg: AREG_ADC_STATE_LENGTH_C, value: 0 },
        RegOp::AnalogWrite { reg: AREG_ADC_STATE_LENGTH_S, value: 0xcf },
    ]
}

pub fn adc_common_init(ops: &mut Vec<RegOp>)
    ensures
        final(ops)@ == old(ops)@ + common_init_ops(),
{
    let ghost start = ops@;
    adc_power_on_sar_adc(ops, false);
    adc_reset_module(ops);
    adc_enable_clk_24m(ops, true);
    adc_set_sample_clk(ops, 5);
    adc_power_on_pga_left(ops, false);
    adc_power_on_pga_right(ops, false);
    adc_set_gain_bias_per100(ops);
    dfifo_disable_dfifo2(ops);
    adc_set_state_length(ops, 1023, 0, 15);
    assert((3u8 << 6u8) | (0u8 << 4u8) | (15u8 & 0x0f) == 0xcfu8) by (bit_vector);
    assert(5u8 & 0x07 == 5u8) by (bit_vector);
    assert(((1023u16 / 256) % 256) as u8 == 3u8);
    assert((1023u16 % 256) as u8 == 0xffu8);
    assert(((0u16 / 256) % 256) as u8 == 0u8);
    assert((0u16 % 256) as u8 == 0u8);
    assert(ops@ =~= start + common_init_ops());
}

/// The raw pin of an ADC pad.
pub fn adc_raw_pin(pin: AdcGpioPin) -> (r: RawPin)
    ensures
        decode_checked(r.value()) == Some((adc_pad(pin).0, adc_pad(pin).1, 1u8 << adc_pad(pin).1)),
        (r.value() / 256) as u8 == adc_pad(pin).0,
        (r.value() % 256) as u8 == 1u8 << adc_pad(pin).1,
        mask_bit((r.value() % 256) as u8) == Some(adc_pad(pin).1),
{
    let (port, bit): (u8, u8) = match pin {
        AdcGpioPin::Pb0 => (1, 0),
        AdcGpioPin::Pb1 => (1, 1),
        AdcGpioPin::Pb2 => (1, 2),
        AdcGpioPin::Pb3 => (1, 3),
        AdcGpioPin::Pb4 => (1, 4),
        AdcGpioPin::Pb5 => (1, 5),
        AdcGpioPin::Pb6 => (1, 6),
        AdcGpioPin::Pb7 => (1, 7),
        AdcGpioPin::Pc4 => (2, 4),
        AdcGpioPin::Pc5 => (2, 5),
    };
    proof {
        lemma_raw_pin_bits(port, bit);
        lemma_raw_pin_round_trip(port, bit);
    }
    RawPin::from_parts(port, bit)
}

/// The pad writes of an ADC input: GPIO mode, input off, output as given
/// and driven as given, then the differential input from the pad's channel
/// to ground.
pub open spec fn pad_ops(pin: AdcGpioPin, output: bool) -> Seq<RegOp> {
    let (port, bit) = adc_pad(pin);
    let mask = 1u8 << bit;
    seq![
        bits8_op(port_reg(port, 6), mask, true),
        input_enable_op(port, mask, false),
        bits8_op(port_reg(port, 2), mask, !output),
        bits8_op(port_reg(port, 3), mask, output),
        RegOp::AnalogWrite { reg: AREG_ADC_MISC_INPUT, value: (0x0fu8 & 0x0f) | ((adc_channel_index(pin) & 0x0f) << 4u8) },
        RegOp::AnalogModify { reg: AREG_ADC_RESOLUTION_MISC, clear: 0, set: 0x40 },
    ]
}

fn configure_pin(ops: &mut Vec<RegOp>, pin: AdcGpioPin, output: bool)
    ensures
        final(ops)@ == old(ops)@ + pad_ops(pin, output),
{
    let ghost start = ops@;
    let raw = adc_raw_pin(pin);
    let r = set_function_raw(ops, raw, PinFunction::Gpio);
    set_input_enabled_raw(ops, raw, false);
    set_output_enabled_raw(ops, raw, output);
    write_data_raw(ops, raw, output);
    adc_set_misc_input_differential(ops, pin.input_channel_index(), 0x0f);
    assert(ops@ =~= start + pad_ops(pin, output));
}

pub fn adc_configure_base_pin(ops: &mut Vec<RegOp>, pin: AdcGpioPin)
    ensures
        final(ops)@ == old(ops)@ + pad_ops(pin, false),
{
    configure_pin(ops, pin, false);
}

pub fn adc_configure_vbat_pin(ops: &mut Vec<RegOp>, pin: AdcGpioPin)
    ensures
        final(ops)@ == old(ops)@ + pad_ops(pin, true),
{
    configure_pin(ops, pin, true);
}

/// The input setup after the common bring-up, for a GPIO input (`vbat`
/// false) or the battery through a driven pad.
pub open spec fn input_init_ops(pin: AdcGpioPin, vbat: bool) -> Seq<RegOp> {
    let chan = RegOp::AnalogWrite { reg: AREG_ADC_CHANNEL_ENABLE, value: 0x04u8 | ((2u8 & 0x07) << 4u8) };
    let vref = RegOp::AnalogModify { reg: AREG_ADC_VREF, clear: 0x30, set: 0x20 };
    let div = RegOp::AnalogModify { reg: AREG_ADC_VBAT_DIV, clear: 0x0c, set: 0 };
    let tail = seq![
        RegOp::AnalogModify { reg: AREG_ADC_RESOLUTION_MISC, clear: 0x03, set: 3 },
        RegOp::AnalogModify { reg: AREG_ADC_MISC_H, clear: 0x0f, set: 1 },
        RegOp::AnalogModify { reg: AREG_ADC_AIN_SCALE, clear: 0xc0, set: 0xc0 },
        RegOp::AnalogModify { reg: AREG_ADC_PGA_CTRL, clear: 0x10, set: 0 },
    ];
    if vbat {
        seq![chan, div] + pad_ops(pin, true) + seq![vref] + tail
    } else {
        seq![chan, vref, div] + pad_ops(pin, false) + tail
    }
}

pub fn adc_gpio_init(ops: &mut Vec<RegOp>, pin: AdcGpioPin)
    ensures
        final(ops)@ == old(ops)@ + input_init_ops(pin, false),
{
    let ghost start = ops@;
    adc_set_channel_enable_and_max_state_count(ops, 0x04, 2);
    adc_set_reference_v1p2_misc(ops);
    adc_set_vbat_divider(ops, AdcVbatDivider::Off);
    adc_configure_base_pin(ops, pin);
    adc_set_resolution_misc(ops, AdcResolution::Bits14);
    adc_set_sample_cycles_misc(ops, AdcSampleCycles::Cycles6);
    adc_set_prescaler(ops, AdcPrescaler::Div1F8);
    adc_set_mode_raw(ops, AdcMode::Normal);
    assert(ops@ =~= start + input_init_ops(pin, false));
}

pub fn adc_vbat_init(ops: &mut Vec<RegOp>, pin: AdcGpioPin)
    ensures
        final(ops)@ == old(ops)@ + input_init_ops(pin, true),
{
    let ghost start = ops@;
    adc_set_channel_enable_and_max_state_count(ops, 0x04, 2);
    adc_set_vbat_divider(ops, AdcVbatDivider::Off);
    adc_configure_vbat_pin(ops, pin);
    adc_set_reference_v1p2_misc(ops);
    adc_set_resolution_misc(ops, AdcResolution::Bits14);
    adc_set_sample_cycles_misc(ops, AdcSampleCycles::Cycles6);
    adc_set_prescaler(ops, AdcPrescaler::Div1F8);
    adc_set_mode_raw(ops, AdcMode::Normal);
    assert(ops@ =~= start + input_init_ops(pin, true));
}

/// The writes that start a conversion into the DMA buffer at `buf_addr`:
/// module reset, 32-byte buffer, DMA channel on.
pub fn sample_start_ops(ops: &mut Vec<RegOp>, buf_addr: usize)
    ensures
        final(ops)@ == old(ops)@ + seq![
            RegOp::Write8 { addr: REG_RST1, value: FLD_RST1_ADC },
            RegOp::Write8 { addr: REG_RST1, value: 0 },
            RegOp::Write16 { addr: REG_DFIFO2_ADDR, value: (buf_addr % 0x1_0000) as u16 },
            RegOp::Write8 { addr: REG_DFIFO2_ADD_HI, value: ((buf_addr / 0x1_0000) % 256) as u8 },
            RegOp::Write8 { addr: REG_DFIFO2_SIZE, value: 1 },
            RegOp::Modify8 { addr: REG_DFIFO_MODE, clear: 0, set: FLD_AUD_DFIFO2_IN },
        ],
{
    let ghost start = ops@;
    adc_reset_module(ops);
    adc_config_misc_channel_buffer(ops, buf_addr, ADC_SAMPLE_NUM * 4);
    dfifo_enable_dfifo2(ops);
    assert(ops@ =~= start + seq![
        RegOp::Write8 { addr: REG_RST1, value: FLD_RST1_ADC },
        RegOp::Write8 { addr: REG_RST1, value: 0 },
        RegOp::Write16 { addr: REG_DFIFO2_ADDR, value: (buf_addr % 0x1_0000) as u16 },
        RegOp::Write8 { addr: REG_DFIFO2_ADD_HI, value: ((buf_addr / 0x1_0000) % 256) as u8 },
        RegOp::Write8 { addr: REG_DFIFO2_SIZE, value: 1 },
        RegOp::Modify8 { addr: REG_DFIFO_MODE, clear: 0, set: FLD_AUD_DFIFO2_IN },
    ]);
}

// ---------------------------------------------------------------------------
// Sample filter
// ---------------------------------------------------------------------------

/// A DMA sample as a 13-bit code; samples with the sign bit (bit 13) set
/// count as zero.
pub open spec fn sample_code(raw: i32) -> u16 {
    if (raw & 0x2000) != 0 { 0 } else { ((raw as u16) & 0x1fff) }
}

/// The codes of a block of raw samples, in buffer order.
pub open spec fn raw_codes(raw: Seq<i32>) -> Seq<u16> {
    Seq::new(raw.len(), |i: int| sample_code(raw[i]))
}

pub open spec fn sorted8(s: Seq<u16>) -> bool {
    forall|i: int, j: int| 0 <= i < j < s.len() ==> s[i] <= s[j]
}

pub open spec fn code_leq() -> spec_fn(u16, u16) -> bool {
    |a: u16, b: u16| a <= b
}

/// The codes of a block of raw samples in increasing order.
pub open spec fn sorted_codes(raw: Seq<i32>) -> Seq<u16> {
    raw_codes(raw).sort_by(code_leq())
}

/// A sorted arrangement of the codes of `raw` is the one `sorted_codes`
/// names.
proof fn lemma_sorted_is_sorted_codes(s: Seq<u16>, raw: Seq<i32>)
    requires
        sorted8(s),
        s.to_multiset() == raw_codes(raw).to_multiset(),
    ensures
        s == sorted_codes(raw),
{
    let leq = code_leq();
    assert(total_ordering(leq));
    raw_codes(raw).lemma_sort_by_ensures(leq);
    assert(sorted_by(s, leq));
    lemma_sorted_unique(s, sorted_codes(raw), leq);
}

/// The conversion of eight sorted codes with reference `vref` millivolts:
/// the mean of the middle four, and the spread between the extremes, each
/// scaled by the 1/8 prescaler and the 13-bit range.
pub open spec fn sample_of_sorted(s: Seq<u16>, vref: u16) -> AdcSample {
    let avg = (s[2] + s[3] + s[4] + s[5]) / 4;
    if avg == 0 {
        AdcSample { millivolts: 0, fluctuation_mv: 0 }
    } else {
        AdcSample {
            millivolts: ((avg * 8 * vref) / 8192) as u32,
            fluctuation_mv: (((s[7] - s[0]) * 8 * vref) / 8192) as u32,
        }
    }
}

/// The codes of eight raw samples, in increasing order.
pub fn sort_samples(raw: &[i32; 8]) -> (r: [u16; 8])
    ensures
        r@ == sorted_codes(raw@),
        sorted8(r@),
        forall|i: int| 0 <= i < 8 ==> r[i] <= 0x1fff,
{

    let ghost codes = raw_codes(raw@);
    let mut a: [u16; 8] = [0u16; 8];
    let mut i: usize = 0;
    assert(a@.take(0) =~= codes.take(0));
    while i < 8
        invariant
            i <= 8,
            a@.len() == 8,
            forall|k: int, l: int| 0 <= k < l < i ==> a@[k] <= a@[l],
            a@.take(i as int).to_multiset() == codes.take(i as int).to_multiset(),
            forall|k: int| 0 <= k < i ==> a@[k] <= 0x1fff,
            codes == raw_codes(raw@),
            codes.len() == 8,
        decreases 8 - i,
    {
        let sample = raw[i];
        let code: u16 = if (sample & 0x2000) != 0 { 0 } else { (sample as u16) & 0x1fff };
        assert(code <= 0x1fff) by (bit_vector)
            requires
                code == 0 || code == (sample as u16) & 0x1fff,
        ;
        let ghost before = a@;
        a[i] = code;
        proof {
            assert(code == codes[i as int]);
            assert(a@.take(i + 1) =~= before.take(i as int).push(code));
            assert(codes.take(i + 1) =~= codes.take(i as int).push(code));
            to_multiset_build(before.take(i as int), code);
            to_multiset_build(codes.take(i as int), code);
        }
        let mut j: usize = i;
        while j > 0 && a[j] < a[j - 1]
            invariant
                j <= i < 8,
                a@.len() == 8,
                forall|k: int, l: int| 0 <= k < l <= i && k != j && l != j ==> a@[k] <= a@[l],
                forall|l: int| j < l <= i ==> a@[j as int] <= a@[l],
                a@.take(i + 1).to_multiset() == codes.take(i + 1).to_multiset(),
                forall|k: int| 0 <= k <= i ==> a@[k] <= 0x1fff,
            decreases j,
        {
            let ghost before_swap = a@;
            let hi = a[j - 1];
            let lo = a[j];
            a[j - 1] = lo;
            a[j] = hi;
            proof {
                let t = before_swap.take(i + 1);
                let t1 = t.update(j - 1, lo);
                assert(a@.take(i + 1) =~= t1.update(j as int, hi));
                to_multiset_update(t, j - 1, lo);
                assert(t1[j as int] == lo);
                to_multiset_update(t1, j as int, hi);
                assert(t[j - 1] == hi);
                to_multiset_contains(t, hi);
                assert(t.to_multiset().count(hi) > 0);
                assert(t.to_multiset().insert(lo).remove(hi).insert(hi).remove(lo) =~= t.to_multiset()) by {
                    broadcast use vstd::multiset::group_multiset_axioms;

                    let m = t.to_multiset();
                    assert forall|y: u16| #[trigger] m.insert(lo).remove(hi).insert(hi).remove(lo).count(y) == m.count(
                        y,
                    ) by {
                        if y == lo && y == hi {
                        } else if y == lo {
                        } else if y == hi {
                        } else {
                        }
                    }
                }
            }
            j = j - 1;
        }
        i = i + 1;
    }
    proof {
        assert(a@.take(8) =~= a@);
        assert(codes.take(8) =~= codes);
        lemma_sorted_is_sorted_codes(a@, raw@);
    }
    a
}

/// The filtered conversion of eight sorted codes.
pub fn sample_from_sorted(s: &[u16; 8], vref: u16) -> (r: AdcSample)
    requires
        sorted8(s@),
        forall|i: int| 0 <= i < 8 ==> s[i] <= 0x1fff,
    ensures
        r == sample_of_sorted(s@, vref),
{
    let avg: u32 = (s[2] as u32 + s[3] as u32 + s[4] as u32 + s[5] as u32) / 4;
    if avg == 0 {
        return AdcSample { millivolts: 0, fluctuation_mv: 0 };
    }
    let v = vref as u32;
    assert(avg * 8 * v <= 0x1fff * 8 * 0xffff) by (nonlinear_arith)
        requires
            avg <= 0x1fff,
            v <= 0xffff,
    ;
    let spread = s[7] as u32 - s[0] as u32;
    assert(spread * 8 * v <= 0x1fff * 8 * 0xffff) by (nonlinear_arith)
        requires
            spread <= 0x1fff,
            v <= 0xffff,
    ;
    let millivolts = (avg * 8 * v) / 8192;
    let fluctuation_mv = (spread * 8 * v) / 8192;
    AdcSample { millivolts, fluctuation_mv }
}

/// The conversion of eight raw DMA samples with reference `vref`: the codes
/// sorted, the middle four averaged, the spread measured.
pub fn adc_filter_samples(raw: &[i32; 8], vref: u16) -> (r: AdcSample)
    ensures
        r == sample_of_sorted(sorted_codes(raw@), vref),
{
    let sorted = sort_samples(raw);
    sample_from_sorted(&sorted, vref)
}

/// The conversion depends on the codes of the samples, not on their order
/// in the buffer.
pub proof fn lemma_filter_ignores_order(raw1: Seq<i32>, raw2: Seq<i32>, vref: u16)
    requires
        raw_codes(raw1).to_multiset() == raw_codes(raw2).to_multiset(),
    ensures
        sample_of_sorted(sorted_codes(raw1), vref) == sample_of_sorted(sorted_codes(raw2), vref),
{
    let leq = code_leq();
    assert(total_ordering(leq));
    raw_codes(raw1).lemma_sort_by_ensures(leq);
    raw_codes(raw2).lemma_sort_by_ensures(leq);
    lemma_sorted_unique(sorted_codes(raw1), sorted_codes(raw2), leq);
}

/// The ADC reference for GPIO inputs in millivolts.
pub fn gpio_calibration_vref_mv(g: &PmGlobals) -> (mv: u16)
    ensures
        mv == g.adc_gpio_calib_vref,
{
    g.adc_gpio_calib_vref
}

pub fn set_gpio_calibration_vref_mv(g: &mut PmGlobals, millivolts: u16)
    ensures
        *final(g) == (PmGlobals { adc_gpio_calib_vref: millivolts, ..*old(g) }),
{
    crate::startup::adc_set_gpio_calib_vref(g, millivolts);
}

/// The ADC.
#[derive(Clone, Copy, Debug, PartialEq, Eq, Structural)]
pub struct Adc;

impl Adc {
    pub fn new() -> (a: Self) {
        Adc
    }

    /// The conversion the startup code provides, with its fluctuation.
    pub fn sample_with_fluctuation(&self) -> (r: AdcSample)
        ensures
            r == (AdcSample { millivolts: 3300, fluctuation_mv: 0 }),
    {
        let (millivolts, fluctuation_mv) = crate::startup::adc_get_result_with_fluct();
        AdcSample { millivolts, fluctuation_mv }
    }

    pub fn gpio_calibration_vref_mv(&self, g: &PmGlobals) -> (mv: u16)
        ensures
            mv == g.adc_gpio_calib_vref,
    {
        gpio_calibration_vref_mv(g)
    }

    pub fn set_gpio_calibration_vref_mv(&self, g: &mut PmGlobals, millivolts: u16)
        ensures
            *final(g) == (PmGlobals { adc_gpio_calib_vref: millivolts, ..*old(g) }),
    {
        set_gpio_calibration_vref_mv(g, millivolts);
    }

    pub fn gpio_default_config(&self) -> (c: AdcConfig)
        ensures
            c == default_adc_config(),
    {
        AdcConfig::gpio_single_ended()
    }

    pub fn vbat_default_config(&self) -> (c: AdcConfig)
        ensures
            c == default_adc_config(),
    {
        AdcConfig::vbat()
    }

    /// Sets the ADC up for a GPIO input on `pin`.
    pub fn init_gpio_input(&self, ops: &mut Vec<RegOp>, pin: AdcGpioPin)
        ensures
            final(ops)@ == old(ops)@ + common_init_ops() + input_init_ops(pin, false),
    {
        let ghost start = ops@;
        adc_common_init(ops);
        adc_gpio_init(ops, pin);
        assert(ops@ =~= start + common_init_ops() + input_init_ops(pin, false));
    }

    /// Sets the ADC up to measure the battery through `pin`.
    pub fn init_vbat_input(&self, ops: &mut Vec<RegOp>, pin: AdcGpioPin)
        ensures
            final(ops)@ == old(ops)@ + common_init_ops() + input_init_ops(pin, true),
    {
        let ghost start = ops@;
        adc_common_init(ops);
        adc_vbat_init(ops, pin);
        assert(ops@ =~= start + common_init_ops() + input_init_ops(pin, true));
    }

    /// The millivolts of eight raw samples (see `adc_filter_samples`).
    pub fn sample_current_config(&self, raw: &[i32; 8], vref: u16) -> (mv: u32)
        ensures
            mv == sample_of_sorted(sorted_codes(raw@), vref).millivolts,
    {
        adc_filter_samples(raw, vref).millivolts
    }

    pub fn sample_current_config_with_fluctuation(&self, raw: &[i32; 8], vref: u16) -> (r: AdcSample)
        ensures
            r == sample_of_sorted(sorted_codes(raw@), vref),
    {
        adc_filter_samples(raw, vref)
    }
}

} // verus!
