//! GPIO pads: raw pin encoding, the function multiplexer table, and the
//! register writes that configure pads, pulls and pad interrupts.

use vstd::prelude::*;
use core::marker::PhantomData;
use crate::analog::{pull_code, Pull};
use crate::mmio::{analog_bits_op, analog_modify_bits, bits8_op, modify_bits8, RegOp};

verus! {

pub const PORT_A: u8 = 0;
pub const PORT_B: u8 = 1;
pub const PORT_C: u8 = 2;
pub const PORT_D: u8 = 3;
pub const PORT_E: u8 = 4;

pub const GPIO_BASE: u32 = 0x0080_0580;
pub const IRQ_BASE: u32 = 0x0080_0640;
pub const MUX_BASE: u32 = 0x0080_05a8;

/// Pin mode marker: input.
pub struct Input;

/// Pin mode marker: output.
pub struct Output;

#[derive(Clone, Copy, Debug, PartialEq, Eq, Structural)]
pub enum Level {
    Low,
    High,
}

#[derive(Clone, Copy, Debug, PartialEq, Eq, Structural)]
pub enum DriveStrength {
    Weak,
    Strong,
}

#[derive(Clone, Copy, Debug, PartialEq, Eq, Structural)]
pub enum PinFunction {
    Gpio,
    Mspi,
    Swire,
    Uart,
    I2c,
    Spi,
    I2s,
    Dmic,
    Sdm,
    Usb,
    Cmp,
    Ats,
    Pwm0,
    Pwm1,
    Pwm2,
    Pwm3,
    Pwm4,
    Pwm5,
    Pwm0N,
    Pwm1N,
    Pwm2N,
    Pwm3N,
    Pwm4N,
    Pwm5N,
    TxCyc2Pa,
    RxCyc2Lna,
}

/// A pad as `port << 8 | 1 << bit`.
#[derive(Clone, Copy, Debug, PartialEq, Eq, Structural)]
pub struct RawPin(u16);

/// The bit index of a one-hot byte.
pub open spec fn mask_bit(mask: u8) -> Option<u8> {
    if mask == 1 {
        Some(0u8)
    } else if mask == 2 {
        Some(1u8)
    } else if mask == 4 {
        Some(2u8)
    } else if mask == 8 {
        Some(3u8)
    } else if mask == 16 {
        Some(4u8)
    } else if mask == 32 {
        Some(5u8)
    } else if mask == 64 {
        Some(6u8)
    } else if mask == 128 {
        Some(7u8)
    } else {
        None
    }
}

/// Port, bit and mask of a raw pin value naming an existing pad (ports A to
/// D have eight pads, port E four).
pub open spec fn decode_checked(raw: u16) -> Option<(u8, u8, u8)> {
    let port = (raw / 256) as u8;
    let mask = (raw % 256) as u8;
    match mask_bit(mask) {
        None => None,
        Some(bit) => if port > PORT_E || (port == PORT_E && bit > 3) {
            None
        } else {
            Some((port, bit, mask))
        },
    }
}

/// Whether (`port`, `bit`) is an existing pad.
pub open spec fn valid_pad(port: u8, bit: u8) -> bool {
    port <= PORT_E && bit < 8 && (port < PORT_E || bit <= 3)
}

impl RawPin {
    pub closed spec fn value(self) -> u16 {
        self.0
    }

    /// The raw pin holding `raw`.
    pub closed spec fn spec_from_value(raw: u16) -> Self {
        RawPin(raw)
    }

    pub proof fn lemma_from_value(p: Self)
        ensures
            Self::spec_from_value(p.value()) == p,
            Self::spec_from_value(p.value()).value() == p.value(),
    {
    }

    pub closed spec fn spec_from_parts(port: u8, bit: u8) -> Self {
        RawPin(((port as u16) << 8u16) | (1u16 << (bit as u16)))
    }

    pub proof fn lemma_spec_from_parts(port: u8, bit: u8)
        ensures
            Self::spec_from_parts(port, bit).value() == ((port as u16) << 8u16) | (1u16 << (bit as u16)),
    {
    }

    pub fn from_parts(port: u8, bit: u8) -> (r: Self)
        requires
            bit < 16,
        ensures
            r.value() == ((port as u16) << 8u16) | (1u16 << (bit as u16)),
            r == Self::spec_from_parts(port, bit),
    {
        RawPin(((port as u16) << 8u16) | (1u16 << (bit as u16)))
    }

    pub fn as_u16(self) -> (r: u16)
        ensures
            r == self.value(),
    {
        self.0
    }

    /// The raw pin with value `raw`, when it names an existing pad.
    pub fn try_from_u16(raw: u16) -> (r: Result<Self, PinmuxError>)
        ensures
            r is Ok <==> decode_checked(raw) is Some,
            r matches Ok(p) ==> p.value() == raw,
            r matches Err(e) ==> e == PinmuxError::InvalidRawPin(raw),
    {
        if decode_raw_pin_checked_u16(raw).is_some() {
            Ok(RawPin(raw))
        } else {
            Err(PinmuxError::InvalidRawPin(raw))
        }
    }
}

/// The bit masks of a pad's port byte and pad bit as the raw encoding packs
/// them.
pub proof fn lemma_raw_pin_bits(port: u8, bit: u8)
    by (bit_vector)
    requires
        bit < 8,
    ensures
        (((port as u16) << 8u16) | (1u16 << (bit as u16))) / 256 == port as u16,
        (((port as u16) << 8u16) | (1u16 << (bit as u16))) % 256 == (1u8 << bit) as u16,
        bit == 0 ==> (1u8 << bit) == 1,
        bit == 1 ==> (1u8 << bit) == 2,
        bit == 2 ==> (1u8 << bit) == 4,
        bit == 3 ==> (1u8 << bit) == 8,
        bit == 4 ==> (1u8 << bit) == 16,
        bit == 5 ==> (1u8 << bit) == 32,
        bit == 6 ==> (1u8 << bit) == 64,
        bit == 7 ==> (1u8 << bit) == 128,
{
}

/// Encoding a pad and decoding it again gives back its port and bit, with
/// the one-hot mask of the bit.
pub proof fn lemma_raw_pin_round_trip(port: u8, bit: u8)
    requires
        valid_pad(port, bit),
    ensures
        decode_checked(((port as u16) << 8u16) | (1u16 << (bit as u16))) == Some((port, bit, 1u8 << bit)),
{
    lemma_raw_pin_bits(port, bit);
}

#[derive(Clone, Copy, Debug, PartialEq, Eq, Structural)]
pub enum PinmuxError {
    InvalidRawPin(u16),
    UnsupportedPair { raw_pin: RawPin, function: PinFunction },
}

#[derive(Clone, Copy, Debug, PartialEq, Eq, Structural)]
pub enum InterruptEdge {
    Rising,
    Falling,
}

#[derive(Clone, Copy, Debug, PartialEq, Eq, Structural)]
pub enum InterruptRoute {
    Core,
    Risc0,
    Risc1,
}

/// How a pad reaches a peripheral: a two-bit selector in the mux
/// registers, or a fixed connection with no selector.
#[derive(Clone, Copy, Debug, PartialEq, Eq, Structural)]
pub enum PinmuxMode {
    Selector(u8),
    FixedNoMux,
}

/// The pad multiplexer table: which selector connects a pad to a peripheral
/// function (`None` for GPIO and for pairs the silicon does not offer).
pub open spec fn pinmux_table(raw: u16, function: PinFunction) -> Option<PinmuxMode> {
    match (raw, function) {
        (_, PinFunction::Gpio) => None,
        (0x0001, PinFunction::Dmic) => Some(PinmuxMode::Selector(0b00)),
        (0x0001, PinFunction::Pwm0N) => Some(PinmuxMode::Selector(0b01)),
        (0x0001, PinFunction::Uart) => Some(PinmuxMode::Selector(0b10)),
        (0x0002, PinFunction::Dmic) => Some(PinmuxMode::Selector(0b00)),
        (0x0002, PinFunction::Uart) => Some(PinmuxMode::Selector(0b01)),
        (0x0002, PinFunction::I2s) => Some(PinmuxMode::Selector(0b10)),
        (0x0004, PinFunction::Spi) => Some(PinmuxMode::Selector(0b00)),
        (0x0004, PinFunction::Uart) => Some(PinmuxMode::Selector(0b01)),
        (0x0004, PinFunction::Pwm0) => Some(PinmuxMode::Selector(0b10)),
        (0x0008, PinFunction::Spi) => Some(PinmuxMode::Selector(0b00)),
        (0x0008, PinFunction::I2c) => Some(PinmuxMode::Selector(0b00)),
        (0x0008, PinFunction::Uart) => Some(PinmuxMode::Selector(0b01)),
        (0x0008, PinFunction::Pwm1) => Some(PinmuxMode::Selector(0b10)),
        (0x0010, PinFunction::Spi) => Some(PinmuxMode::Selector(0b00)),
        (0x0010, PinFunction::I2c) => Some(PinmuxMode::Selector(0b00)),
        (0x0010, PinFunction::Uart) => Some(PinmuxMode::Selector(0b01)),
        (0x0010, PinFunction::Pwm2) => Some(PinmuxMode::Selector(0b10)),
        (0x0020, PinFunction::Usb) => Some(PinmuxMode::FixedNoMux),
        (0x0040, PinFunction::Usb) => Some(PinmuxMode::FixedNoMux),
        (0x0080, PinFunction::Swire) => Some(PinmuxMode::Selector(0b00)),
        (0x0080, PinFunction::Uart) => Some(PinmuxMode::Selector(0b01)),
        (0x0101, PinFunction::Pwm3) => Some(PinmuxMode::Selector(0b00)),
        (0x0101, PinFunction::Uart) => Some(PinmuxMode::Selector(0b01)),
        (0x0101, PinFunction::Ats) => Some(PinmuxMode::Selector(0b10)),
        (0x0102, PinFunction::Pwm4) => Some(PinmuxMode::Selector(0b00)),
        (0x0102, PinFunction::Uart) => Some(PinmuxMode::Selector(0b01)),
        (0x0102, PinFunction::Ats) => Some(PinmuxMode::Selector(0b10)),
        (0x0104, PinFunction::Pwm5) => Some(PinmuxMode::Selector(0b00)),
        (0x0104, PinFunction::Uart) => Some(PinmuxMode::Selector(0b01)),
        (0x0104, PinFunction::RxCyc2Lna) => Some(PinmuxMode::Selector(0b10)),
        (0x0108, PinFunction::Pwm0N) => Some(PinmuxMode::Selector(0b00)),
        (0x0108, PinFunction::Uart) => Some(PinmuxMode::Selector(0b01)),
        (0x0108, PinFunction::TxCyc2Pa) => Some(PinmuxMode::Selector(0b10)),
        (0x0110, PinFunction::Sdm) => Some(PinmuxMode::Selector(0b00)),
        (0x0110, PinFunction::Pwm4) => Some(PinmuxMode::Selector(0b01)),
        (0x0110, PinFunction::Cmp) => Some(PinmuxMode::Selector(0b10)),
        (0x0120, PinFunction::Sdm) => Some(PinmuxMode::Selector(0b00)),
        (0x0120, PinFunction::Pwm5) => Some(PinmuxMode::Selector(0b01)),
        (0x0120, PinFunction::Cmp) => Some(PinmuxMode::Selector(0b10)),
        (0x0140, PinFunction::Sdm) => Some(PinmuxMode::Selector(0b00)),
        (0x0140, PinFunction::Spi) => Some(PinmuxMode::Selector(0b01)),
        (0x0140, PinFunction::I2c) => Some(PinmuxMode::Selector(0b01)),
        (0x0140, PinFunction::Uart) => Some(PinmuxMode::Selector(0b10)),
        (0x0180, PinFunction::Sdm) => Some(PinmuxMode::Selector(0b00)),
        (0x0180, PinFunction::Spi) => Some(PinmuxMode::Selector(0b01)),
        (0x0180, PinFunction::Uart) => Some(PinmuxMode::Selector(0b10)),
        (0x0201, PinFunction::I2c) => Some(PinmuxMode::Selector(0b00)),
        (0x0201, PinFunction::Pwm4N) => Some(PinmuxMode::Selector(0b01)),
        (0x0201, PinFunction::Uart) => Some(PinmuxMode::Selector(0b10)),
        (0x0202, PinFunction::I2c) => Some(PinmuxMode::Selector(0b00)),
        (0x0202, PinFunction::Pwm1N) => Some(PinmuxMode::Selector(0b01)),
        (0x0202, PinFunction::Pwm0) => Some(PinmuxMode::Selector(0b10)),
        (0x0204, PinFunction::Pwm0) => Some(PinmuxMode::Selector(0b00)),
        (0x0204, PinFunction::Uart) => Some(PinmuxMode::Selector(0b01)),
        (0x0204, PinFunction::I2c) => Some(PinmuxMode::Selector(0b10)),
        (0x0208, PinFunction::Pwm1) => Some(PinmuxMode::Selector(0b00)),
        (0x0208, PinFunction::Uart) => Some(PinmuxMode::Selector(0b01)),
        (0x0208, PinFunction::I2c) => Some(PinmuxMode::Selector(0b10)),
        (0x0210, PinFunction::Pwm2) => Some(PinmuxMode::Selector(0b00)),
        (0x0210, PinFunction::Uart) => Some(PinmuxMode::Selector(0b01)),
        (0x0210, PinFunction::Pwm0N) => Some(PinmuxMode::Selector(0b10)),
        (0x0220, PinFunction::Pwm3N) => Some(PinmuxMode::Selector(0b00)),
        (0x0220, PinFunction::Uart) => Some(PinmuxMode::Selector(0b01)),
        (0x0220, PinFunction::Ats) => Some(PinmuxMode::Selector(0b10)),
        (0x0240, PinFunction::RxCyc2Lna) => Some(PinmuxMode::Selector(0b00)),
        (0x0240, PinFunction::Ats) => Some(PinmuxMode::Selector(0b01)),
        (0x0240, PinFunction::Pwm4N) => Some(PinmuxMode::Selector(0b10)),
        (0x0280, PinFunction::TxCyc2Pa) => Some(PinmuxMode::Selector(0b00)),
        (0x0280, PinFunction::Ats) => Some(PinmuxMode::Selector(0b01)),
        (0x0280, PinFunction::Pwm5N) => Some(PinmuxMode::Selector(0b10)),
        (0x0301, PinFunction::RxCyc2Lna) => Some(PinmuxMode::Selector(0b00)),
        (0x0301, PinFunction::Cmp) => Some(PinmuxMode::Selector(0b01)),
        (0x0301, PinFunction::Uart) => Some(PinmuxMode::Selector(0b10)),
        (0x0302, PinFunction::TxCyc2Pa) => Some(PinmuxMode::Selector(0b00)),
        (0x0302, PinFunction::Cmp) => Some(PinmuxMode::Selector(0b01)),
        (0x0302, PinFunction::Uart) => Some(PinmuxMode::Selector(0b10)),
        (0x0304, PinFunction::Spi) => Some(PinmuxMode::Selector(0b00)),
        (0x0304, PinFunction::I2s) => Some(PinmuxMode::Selector(0b01)),
        (0x0304, PinFunction::Pwm3) => Some(PinmuxMode::Selector(0b10)),
        (0x0308, PinFunction::Pwm1N) => Some(PinmuxMode::Selector(0b00)),
        (0x0308, PinFunction::I2s) => Some(PinmuxMode::Selector(0b01)),
        (0x0308, PinFunction::Uart) => Some(PinmuxMode::Selector(0b10)),
        (0x0310, PinFunction::Swire) => Some(PinmuxMode::Selector(0b00)),
        (0x0310, PinFunction::I2s) => Some(PinmuxMode::Selector(0b01)),
        (0x0310, PinFunction::Pwm2N) => Some(PinmuxMode::Selector(0b10)),
        (0x0320, PinFunction::Pwm0) => Some(PinmuxMode::Selector(0b00)),
        (0x0320, PinFunction::Cmp) => Some(PinmuxMode::Selector(0b01)),
        (0x0320, PinFunction::Pwm0N) => Some(PinmuxMode::Selector(0b10)),
        (0x0340, PinFunction::Spi) => Some(PinmuxMode::Selector(0b00)),
        (0x0340, PinFunction::Uart) => Some(PinmuxMode::Selector(0b01)),
        (0x0340, PinFunction::Ats) => Some(PinmuxMode::Selector(0b10)),
        (0x0380, PinFunction::Spi) => Some(PinmuxMode::Selector(0b00)),
        (0x0380, PinFunction::I2c) => Some(PinmuxMode::Selector(0b00)),
        (0x0380, PinFunction::I2s) => Some(PinmuxMode::Selector(0b01)),
        (0x0380, PinFunction::Uart) => Some(PinmuxMode::Selector(0b10)),
        (0x0401, PinFunction::Mspi) => Some(PinmuxMode::FixedNoMux),
        (0x0402, PinFunction::Mspi) => Some(PinmuxMode::FixedNoMux),
        (0x0404, PinFunction::Mspi) => Some(PinmuxMode::FixedNoMux),
        (0x0408, PinFunction::Mspi) => Some(PinmuxMode::FixedNoMux),
        _ => None,
    }
}

/// Looks a (pad, function) pair up in the multiplexer table.
pub fn pinmux_mode_for(raw_pin: RawPin, function: PinFunction) -> (m: Option<PinmuxMode>)
    ensures
        m == pinmux_table(raw_pin.value(), function),
{
    match (raw_pin.as_u16(), function) {
        (_, PinFunction::Gpio) => None,
        (0x0001, PinFunction::Dmic) => Some(PinmuxMode::Selector(0b00)),
        (0x0001, PinFunction::Pwm0N) => Some(PinmuxMode::Selector(0b01)),
        (0x0001, PinFunction::Uart) => Some(PinmuxMode::Selector(0b10)),
        (0x0002, PinFunction::Dmic) => Some(PinmuxMode::Selector(0b00)),
        (0x0002, PinFunction::Uart) => Some(PinmuxMode::Selector(0b01)),
        (0x0002, PinFunction::I2s) => Some(PinmuxMode::Selector(0b10)),
        (0x0004, PinFunction::Spi) => Some(PinmuxMode::Selector(0b00)),
        (0x0004, PinFunction::Uart) => Some(PinmuxMode::Selector(0b01)),
        (0x0004, PinFunction::Pwm0) => Some(PinmuxMode::Selector(0b10)),
        (0x0008, PinFunction::Spi) => Some(PinmuxMode::Selector(0b00)),
        (0x0008, PinFunction::I2c) => Some(PinmuxMode::Selector(0b00)),
        (0x0008, PinFunction::Uart) => Some(PinmuxMode::Selector(0b01)),
        (0x0008, PinFunction::Pwm1) => Some(PinmuxMode::Selector(0b10)),
        (0x0010, PinFunction::Spi) => Some(PinmuxMode::Selector(0b00)),
        (0x0010, PinFunction::I2c) => Some(PinmuxMode::Selector(0b00)),
        (0x0010, PinFunction::Uart) => Some(PinmuxMode::Selector(0b01)),
        (0x0010, PinFunction::Pwm2) => Some(PinmuxMode::Selector(0b10)),
        (0x0020, PinFunction::Usb) => Some(PinmuxMode::FixedNoMux),
        (0x0040, PinFunction::Usb) => Some(PinmuxMode::FixedNoMux),
        (0x0080, PinFunction::Swire) => Some(PinmuxMode::Selector(0b00)),
        (0x0080, PinFunction::Uart) => Some(PinmuxMode::Selector(0b01)),
        (0x0101, PinFunction::Pwm3) => Some(PinmuxMode::Selector(0b00)),
        (0x0101, PinFunction::Uart) => Some(PinmuxMode::Selector(0b01)),
        (0x0101, PinFunction::Ats) => Some(PinmuxMode::Selector(0b10)),
        (0x0102, PinFunction::Pwm4) => Some(PinmuxMode::Selector(0b00)),
        (0x0102, PinFunction::Uart) => Some(PinmuxMode::Selector(0b01)),
        (0x0102, PinFunction::Ats) => Some(PinmuxMode::Selector(0b10)),
        (0x0104, PinFunction::Pwm5) => Some(PinmuxMode::Selector(0b00)),
        (0x0104, PinFunction::Uart) => Some(PinmuxMode::Selector(0b01)),
        (0x0104, PinFunction::RxCyc2Lna) => Some(PinmuxMode::Selector(0b10)),
        (0x0108, PinFunction::Pwm0N) => Some(PinmuxMode::Selector(0b00)),
        (0x0108, PinFunction::Uart) => Some(PinmuxMode::Selector(0b01)),
        (0x0108, PinFunction::TxCyc2Pa) => Some(PinmuxMode::Selector(0b10)),
        (0x0110, PinFunction::Sdm) => Some(PinmuxMode::Selector(0b00)),
        (0x0110, PinFunction::Pwm4) => Some(PinmuxMode::Selector(0b01)),
        (0x0110, PinFunction::Cmp) => Some(PinmuxMode::Selector(0b10)),
        (0x0120, PinFunction::Sdm) => Some(PinmuxMode::Selector(0b00)),
        (0x0120, PinFunction::Pwm5) => Some(PinmuxMode::Selector(0b01)),
        (0x0120, PinFunction::Cmp) => Some(PinmuxMode::Selector(0b10)),
        (0x0140, PinFunction::Sdm) => Some(PinmuxMode::Selector(0b00)),
        (0x0140, PinFunction::Spi) => Some(PinmuxMode::Selector(0b01)),
        (0x0140, PinFunction::I2c) => Some(PinmuxMode::Selector(0b01)),
        (0x0140, PinFunction::Uart) => Some(PinmuxMode::Selector(0b10)),
        (0x0180, PinFunction::Sdm) => Some(PinmuxMode::Selector(0b00)),
        (0x0180, PinFunction::Spi) => Some(PinmuxMode::Selector(0b01)),
        (0x0180, PinFunction::Uart) => Some(PinmuxMode::Selector(0b10)),
        (0x0201, PinFunction::I2c) => Some(PinmuxMode::Selector(0b00)),
        (0x0201, PinFunction::Pwm4N) => Some(PinmuxMode::Selector(0b01)),
        (0x0201, PinFunction::Uart) => Some(PinmuxMode::Selector(0b10)),
        (0x0202, PinFunction::I2c) => Some(PinmuxMode::Selector(0b00)),
        (0x0202, PinFunction::Pwm1N) => Some(PinmuxMode::Selector(0b01)),
        (0x0202, PinFunction::Pwm0) => Some(PinmuxMode::Selector(0b10)),
        (0x0204, PinFunction::Pwm0) => Some(PinmuxMode::Selector(0b00)),
        (0x0204, PinFunction::Uart) => Some(PinmuxMode::Selector(0b01)),
        (0x0204, PinFunction::I2c) => Some(PinmuxMode::Selector(0b10)),
        (0x0208, PinFunction::Pwm1) => Some(PinmuxMode::Selector(0b00)),
        (0x0208, PinFunction::Uart) => Some(PinmuxMode::Selector(0b01)),
        (0x0208, PinFunction::I2c) => Some(PinmuxMode::Selector(0b10)),
        (0x0210, PinFunction::Pwm2) => Some(PinmuxMode::Selector(0b00)),
        (0x0210, PinFunction::Uart) => Some(PinmuxMode::Selector(0b01)),
        (0x0210, PinFunction::Pwm0N) => Some(PinmuxMode::Selector(0b10)),
        (0x0220, PinFunction::Pwm3N) => Some(PinmuxMode::Selector(0b00)),
        (0x0220, PinFunction::Uart) => Some(PinmuxMode::Selector(0b01)),
        (0x0220, PinFunction::Ats) => Some(PinmuxMode::Selector(0b10)),
        (0x0240, PinFunction::RxCyc2Lna) => Some(PinmuxMode::Selector(0b00)),
        (0x0240, PinFunction::Ats) => Some(PinmuxMode::Selector(0b01)),
        (0x0240, PinFunction::Pwm4N) => Some(PinmuxMode::Selector(0b10)),
        (0x0280, PinFunction::TxCyc2Pa) => Some(PinmuxMode::Selector(0b00)),
        (0x0280, PinFunction::Ats) => Some(PinmuxMode::Selector(0b01)),
        (0x0280, PinFunction::Pwm5N) => Some(PinmuxMode::Selector(0b10)),
        (0x0301, PinFunction::RxCyc2Lna) => Some(PinmuxMode::Selector(0b00)),
        (0x0301, PinFunction::Cmp) => Some(PinmuxMode::Selector(0b01)),
        (0x0301, PinFunction::Uart) => Some(PinmuxMode::Selector(0b10)),
        (0x0302, PinFunction::TxCyc2Pa) => Some(PinmuxMode::Selector(0b00)),
        (0x0302, PinFunction::Cmp) => Some(PinmuxMode::Selector(0b01)),
        (0x0302, PinFunction::Uart) => Some(PinmuxMode::Selector(0b10)),
        (0x0304, PinFunction::Spi) => Some(PinmuxMode::Selector(0b00)),
        (0x0304, PinFunction::I2s) => Some(PinmuxMode::Selector(0b01)),
        (0x0304, PinFunction::Pwm3) => Some(PinmuxMode::Selector(0b10)),
        (0x0308, PinFunction::Pwm1N) => Some(PinmuxMode::Selector(0b00)),
        (0x0308, PinFunction::I2s) => Some(PinmuxMode::Selector(0b01)),
        (0x0308, PinFunction::Uart) => Some(PinmuxMode::Selector(0b10)),
        (0x0310, PinFunction::Swire) => Some(PinmuxMode::Selector(0b00)),
        (0x0310, PinFunction::I2s) => Some(PinmuxMode::Selector(0b01)),
        (0x0310, PinFunction::Pwm2N) => Some(PinmuxMode::Selector(0b10)),
        (0x0320, PinFunction::Pwm0) => Some(PinmuxMode::Selector(0b00)),
        (0x0320, PinFunction::Cmp) => Some(PinmuxMode::Selector(0b01)),
        (0x0320, PinFunction::Pwm0N) => Some(PinmuxMode::Selector(0b10)),
        (0x0340, PinFunction::Spi) => Some(PinmuxMode::Selector(0b00)),
        (0x0340, PinFunction::Uart) => Some(PinmuxMode::Selector(0b01)),
        (0x0340, PinFunction::Ats) => Some(PinmuxMode::Selector(0b10)),
        (0x0380, PinFunction::Spi) => Some(PinmuxMode::Selector(0b00)),
        (0x0380, PinFunction::I2c) => Some(PinmuxMode::Selector(0b00)),
        (0x0380, PinFunction::I2s) => Some(PinmuxMode::Selector(0b01)),
        (0x0380, PinFunction::Uart) => Some(PinmuxMode::Selector(0b10)),
        (0x0401, PinFunction::Mspi) => Some(PinmuxMode::FixedNoMux),
        (0x0402, PinFunction::Mspi) => Some(PinmuxMode::FixedNoMux),
        (0x0404, PinFunction::Mspi) => Some(PinmuxMode::FixedNoMux),
        (0x0408, PinFunction::Mspi) => Some(PinmuxMode::FixedNoMux),
        _ => None,
    }
}

/// The bit index of a one-hot byte.
pub fn mask_bit_index(mask: u8) -> (r: Option<u8>)
    ensures
        r == mask_bit(mask),
{
    if mask == 1 {
        Some(0)
    } else if mask == 2 {
        Some(1)
    } else if mask == 4 {
        Some(2)
    } else if mask == 8 {
        Some(3)
    } else if mask == 16 {
        Some(4)
    } else if mask == 32 {
        Some(5)
    } else if mask == 64 {
        Some(6)
    } else if mask == 128 {
        Some(7)
    } else {
        None
    }
}

/// Port, bit and mask of a raw pin value, when it names an existing pad.
pub fn decode_raw_pin_checked_u16(raw_pin: u16) -> (r: Option<(u8, u8, u8)>)
    ensures
        r == decode_checked(raw_pin),
{
    let port = (raw_pin / 256) as u8;
    let mask = (raw_pin % 256) as u8;
    let bit = match mask_bit_index(mask) {
        Some(b) => b,
        None => {
            return None;
        },
    };
    if port > PORT_E {
        return None;
    }
    if port == PORT_E && bit > 3 {
        return None;
    }
    Some((port, bit, mask))
}

pub fn decode_raw_pin_checked(raw_pin: RawPin) -> (r: Option<(u8, u8, u8)>)
    ensures
        r == decode_checked(raw_pin.value()),
{
    decode_raw_pin_checked_u16(raw_pin.as_u16())
}

/// Port, bit and mask of a raw pin whose low byte is one-hot.
pub fn decode_raw_pin(raw_pin: RawPin) -> (r: (u8, u8, u8))
    requires
        mask_bit((raw_pin.value() % 256) as u8) is Some,
    ensures
        r == ((raw_pin.value() / 256) as u8, mask_bit((raw_pin.value() % 256) as u8)->0, (raw_pin.value() % 256) as u8),
{
    let raw = raw_pin.as_u16();
    let port = (raw / 256) as u8;
    let mask = (raw % 256) as u8;
    let bit = match mask_bit_index(mask) {
        Some(b) => b,
        None => 0,
    };
    (port, bit, mask)
}

/// Address of register `offset` of `port`'s eight-byte register block.
pub open spec fn port_reg(port: u8, offset: u32) -> u32 {
    (GPIO_BASE + port * 8 + offset) as u32
}

pub fn reg_raw(port: u8, offset: u32) -> (a: u32)
    requires
        offset < 8,
    ensures
        a == port_reg(port, offset),
{
    GPIO_BASE + (port as u32) * 8 + offset
}

/// Sets or clears `mask` in register `offset` of `port`.
pub fn modify_raw_port_reg(ops: &mut Vec<RegOp>, port: u8, offset: u32, mask: u8, set: bool)
    requires
        offset < 8,
    ensures
        final(ops)@ == old(ops)@.push(bits8_op(port_reg(port, offset), mask, set)),
{
    ops.push(modify_bits8(reg_raw(port, offset), mask, set));
}

/// The multiplexer write that selects `selector` for pad (`port`, `bit`):
/// two bits per pad, four pads per register, two registers per port.
pub open spec fn mux_op(port: u8, bit: u8, selector: u8) -> RegOp {
    let shift = ((bit % 4) * 2) as u8;
    RegOp::Modify8 { addr: (MUX_BASE + port * 2 + bit / 4) as u32, clear: 3u8 << shift, set: (selector & 3u8) << shift }
}

pub fn write_mux_selector(ops: &mut Vec<RegOp>, port: u8, bit: u8, selector: u8)
    ensures
        final(ops)@ == old(ops)@.push(mux_op(port, bit, selector)),
{
    let shift: u8 = (bit % 4) * 2;
    let addr = MUX_BASE + (port as u32) * 2 + (bit as u32) / 4;
    ops.push(RegOp::Modify8 { addr, clear: 3u8 << shift, set: (selector & 3u8) << shift });
}

/// The input-enable write of a pad: ports B and C keep it in analog
/// registers 0xbd and 0xc0, the others in register 1 of the port.
pub open spec fn input_enable_op(port: u8, mask: u8, enabled: bool) -> RegOp {
    if port == PORT_B {
        analog_bits_op(0xbd, mask, enabled)
    } else if port == PORT_C {
        analog_bits_op(0xc0, mask, enabled)
    } else {
        bits8_op(port_reg(port, 1), mask, enabled)
    }
}

/// The drive-strength write of a pad: analog 0xbf and 0xc2 for ports B and
/// C, register 5 of the port otherwise.
pub open spec fn drive_strength_op(port: u8, mask: u8, strong: bool) -> RegOp {
    if port == PORT_B {
        analog_bits_op(0xbf, mask, strong)
    } else if port == PORT_C {
        analog_bits_op(0xc2, mask, strong)
    } else {
        bits8_op(port_reg(port, 5), mask, strong)
    }
}

/// The analog register and bit offset of a pad's two-bit pull field: ports
/// A to D from register 0x0e on, four pads per register.
pub open spec fn pull_location(port: u8, bit: u8) -> Option<(u8, u8)> {
    if port <= PORT_D {
        Some(((0x0e + port * 2 + bit / 4) as u8, ((bit % 4) * 2) as u8))
    } else {
        None
    }
}

pub fn pull_addr_shift_raw(port: u8, bit: u8) -> (r: Option<(u8, u8)>)
    ensures
        r == pull_location(port, bit),
{
    if port <= PORT_D {
        let addr = 0x0e + (port * 2) + (bit / 4);
        let shift = (bit % 4) * 2;
        return Some((addr, shift));
    }
    None
}

/// The pull field location on the 826x family: consecutive two-bit fields
/// from bit 4 of analog register 0x0a for PA0 to PE1, and register 0x08 for
/// PE2 and PE3.
pub open spec fn pull_location_826x(port: u8, bit: u8) -> Option<(u8, u8)> {
    let k = port * 8 + bit + 2;
    if (port <= PORT_D && bit < 8) || (port == PORT_E && bit < 2) {
        Some(((0x0a + k / 4) as u8, ((k % 4) * 2) as u8))
    } else if port == PORT_E && bit == 2 {
        Some((0x08u8, 4u8))
    } else if port == PORT_E && bit == 3 {
        Some((0x08u8, 6u8))
    } else {
        None
    }
}

pub fn pull_addr_shift_826x(port: u8, bit: u8) -> (r: Option<(u8, u8)>)
    ensures
        r == pull_location_826x(port, bit),
{
    match (port, bit) {
        (PORT_A, 0) => Some((0x0a, 4)),
        (PORT_A, 1) => Some((0x0a, 6)),
        (PORT_A, 2) => Some((0x0b, 0)),
        (PORT_A, 3) => Some((0x0b, 2)),
        (PORT_A, 4) => Some((0x0b, 4)),
        (PORT_A, 5) => Some((0x0b, 6)),
        (PORT_A, 6) => Some((0x0c, 0)),
        (PORT_A, 7) => Some((0x0c, 2)),
        (PORT_B, 0) => Some((0x0c, 4)),
        (PORT_B, 1) => Some((0x0c, 6)),
        (PORT_B, 2) => Some((0x0d, 0)),
        (PORT_B, 3) => Some((0x0d, 2)),
        (PORT_B, 4) => Some((0x0d, 4)),
        (PORT_B, 5) => Some((0x0d, 6)),
        (PORT_B, 6) => Some((0x0e, 0)),
        (PORT_B, 7) => Some((0x0e, 2)),
        (PORT_C, 0) => Some((0x0e, 4)),
        (PORT_C, 1) => Some((0x0e, 6)),
        (PORT_C, 2) => Some((0x0f, 0)),
        (PORT_C, 3) => Some((0x0f, 2)),
        (PORT_C, 4) => Some((0x0f, 4)),
        (PORT_C, 5) => Some((0x0f, 6)),
        (PORT_C, 6) => Some((0x10, 0)),
        (PORT_C, 7) => Some((0x10, 2)),
        (PORT_D, 0) => Some((0x10, 4)),
        (PORT_D, 1) => Some((0x10, 6)),
        (PORT_D, 2) => Some((0x11, 0)),
        (PORT_D, 3) => Some((0x11, 2)),
        (PORT_D, 4) => Some((0x11, 4)),
        (PORT_D, 5) => Some((0x11, 6)),
        (PORT_D, 6) => Some((0x12, 0)),
        (PORT_D, 7) => Some((0x12, 2)),
        (PORT_E, 0) => Some((0x12, 4)),
        (PORT_E, 1) => Some((0x12, 6)),
        (PORT_E, 2) => Some((0x08, 4)),
        (PORT_E, 3) => Some((0x08, 6)),
        _ => None,
    }
}

/// The write that sets a pad's pull field to `pull`, if the pad has one.
pub open spec fn pull_ops(port: u8, bit: u8, pull: Pull) -> Seq<RegOp> {
    match pull_location(port, bit) {
        Some((addr, shift)) => seq![RegOp::AnalogModify { reg: addr, clear: 3u8 << shift, set: pull_code(pull) << shift }],
        None => Seq::empty(),
    }
}

/// The writes that connect pad `raw` to `function`, once the pad is known
/// to exist as (`port`, `bit`, `mask`).
pub open spec fn function_ops(raw: u16, port: u8, bit: u8, mask: u8, function: PinFunction) -> Seq<RegOp> {
    if function == PinFunction::Gpio {
        seq![bits8_op(port_reg(port, 6), mask, true)]
    } else {
        match pinmux_table(raw, function) {
            Some(PinmuxMode::Selector(sel)) => seq![mux_op(port, bit, sel), bits8_op(port_reg(port, 6), mask, false)],
            Some(PinmuxMode::FixedNoMux) => if function == PinFunction::Usb {
                seq![input_enable_op(port, mask, true), bits8_op(port_reg(port, 6), mask, false)]
            } else {
                seq![bits8_op(port_reg(port, 6), mask, false)]
            },
            None => Seq::empty(),
        }
    }
}

/// The error of connecting pad `raw` to `function`, if any.
pub open spec fn function_error(raw_pin: RawPin, function: PinFunction) -> Option<PinmuxError> {
    if decode_checked(raw_pin.value()) is None {
        Some(PinmuxError::InvalidRawPin(raw_pin.value()))
    } else if function != PinFunction::Gpio && pinmux_table(raw_pin.value(), function) is None {
        Some(PinmuxError::UnsupportedPair { raw_pin, function })
    } else {
        None
    }
}

/// Connects pad `raw_pin` to `function`: GPIO mode, or the peripheral
/// through its mux selector (enabling the input of USB pads).
pub fn set_function_raw(ops: &mut Vec<RegOp>, raw_pin: RawPin, function: PinFunction) -> (r: Result<(), PinmuxError>)
    ensures
        r matches Err(e) ==> function_error(raw_pin, function) == Some(e) && final(ops)@ == old(ops)@,
        r is Ok ==> function_error(raw_pin, function) is None && ({
            let (port, bit, mask) = decode_checked(raw_pin.value())->0;
            final(ops)@ == old(ops)@ + function_ops(raw_pin.value(), port, bit, mask, function)
        }),
{
    let ghost start = ops@;
    let (port, bit, mask) = match decode_raw_pin_checked(raw_pin) {
        Some(t) => t,
        None => {
            return Err(PinmuxError::InvalidRawPin(raw_pin.as_u16()));
        },
    };
    if function == PinFunction::Gpio {
        modify_raw_port_reg(ops, port, 0x06, mask, true);
        assert(ops@ =~= start + function_ops(raw_pin.value(), port, bit, mask, function));
        return Ok(());
    }
    let mode = match pinmux_mode_for(raw_pin, function) {
        Some(m) => m,
        None => {
            return Err(PinmuxError::UnsupportedPair { raw_pin, function });
        },
    };
    match mode {
        PinmuxMode::Selector(selector) => write_mux_selector(ops, port, bit, selector),
        PinmuxMode::FixedNoMux => {
            if function == PinFunction::Usb {
                set_input_enabled_raw(ops, raw_pin, true);
            }
        },
    }
    modify_raw_port_reg(ops, port, 0x06, mask, false);
    assert(ops@ =~= start + function_ops(raw_pin.value(), port, bit, mask, function));
    Ok(())
}

/// Connects pad `raw_pin` to `function`.
pub fn set_function_for_raw_pin(ops: &mut Vec<RegOp>, raw_pin: RawPin, function: PinFunction) -> (r: Result<
    (),
    PinmuxError,
>)
    ensures
        r matches Err(e) ==> function_error(raw_pin, function) == Some(e) && final(ops)@ == old(ops)@,
        r is Ok ==> function_error(raw_pin, function) is None && ({
            let (port, bit, mask) = decode_checked(raw_pin.value())->0;
            final(ops)@ == old(ops)@ + function_ops(raw_pin.value(), port, bit, mask, function)
        }),
{
    set_function_raw(ops, raw_pin, function)
}

pub fn set_input_enabled_raw(ops: &mut Vec<RegOp>, raw_pin: RawPin, enabled: bool)
    requires
        mask_bit((raw_pin.value() % 256) as u8) is Some,
    ensures
        final(ops)@ == old(ops)@.push(
            input_enable_op((raw_pin.value() / 256) as u8, (raw_pin.value() % 256) as u8, enabled),
        ),
{
    let (port, _bit, mask) = decode_raw_pin(raw_pin);
    if port == PORT_B {
        ops.push(analog_modify_bits(0xbd, mask, enabled));
        return;
    }
    if port == PORT_C {
        ops.push(analog_modify_bits(0xc0, mask, enabled));
        return;
    }
    modify_raw_port_reg(ops, port, 0x01, mask, enabled);
}

pub fn set_output_enabled_raw(ops: &mut Vec<RegOp>, raw_pin: RawPin, enabled: bool)
    requires
        mask_bit((raw_pin.value() % 256) as u8) is Some,
    ensures
        final(ops)@ == old(ops)@.push(
            bits8_op(port_reg((raw_pin.value() / 256) as u8, 2), (raw_pin.value() % 256) as u8, !enabled),
        ),
{
    let (port, _bit, mask) = decode_raw_pin(raw_pin);
    modify_raw_port_reg(ops, port, 0x02, mask, !enabled);
}

pub fn write_data_raw(ops: &mut Vec<RegOp>, raw_pin: RawPin, high: bool)
    requires
        mask_bit((raw_pin.value() % 256) as u8) is Some,
    ensures
        final(ops)@ == old(ops)@.push(
            bits8_op(port_reg((raw_pin.value() / 256) as u8, 3), (raw_pin.value() % 256) as u8, high),
        ),
{
    let (port, _bit, mask) = decode_raw_pin(raw_pin);
    modify_raw_port_reg(ops, port, 0x03, mask, high);
}

pub fn set_pull_resistor_raw(ops: &mut Vec<RegOp>, raw_pin: RawPin, pull: Pull)
    requires
        mask_bit((raw_pin.value() % 256) as u8) is Some,
    ensures
        final(ops)@ == old(ops)@ + pull_ops(
            (raw_pin.value() / 256) as u8,
            mask_bit((raw_pin.value() % 256) as u8)->0,
            pull,
        ),
{
    let (port, bit, _mask) = decode_raw_pin(raw_pin);
    let ghost start = ops@;
    match pull_addr_shift_raw(port, bit) {
        Some((addr, shift)) => {
            ops.push(RegOp::AnalogModify { reg: addr, clear: 3u8 << shift, set: pull.bits() << shift });
            assert(ops@ =~= start + pull_ops(port, bit, pull));
        },
        None => {
            assert(ops@ =~= start + pull_ops(port, bit, pull));
        },
    }
}

/// Pad `BIT` of port `PORT` in mode `MODE`.
pub struct Pin<const PORT: u8, const BIT: u8, MODE> {
    _mode: PhantomData<MODE>,
}

pub type PA0<MODE = Input> = Pin<0, 0, MODE>;
pub type PA1<MODE = Input> = Pin<0, 1, MODE>;
pub type PA2<MODE = Input> = Pin<0, 2, MODE>;
pub type PA3<MODE = Input> = Pin<0, 3, MODE>;
pub type PA4<MODE = Input> = Pin<0, 4, MODE>;
pub type PA5<MODE = Input> = Pin<0, 5, MODE>;
pub type PA6<MODE = Input> = Pin<0, 6, MODE>;
pub type PA7<MODE = Input> = Pin<0, 7, MODE>;
pub type PB0<MODE = Input> = Pin<1, 0, MODE>;
pub type PB1<MODE = Input> = Pin<1, 1, MODE>;
pub type PB2<MODE = Input> = Pin<1, 2, MODE>;
pub type PB3<MODE = Input> = Pin<1, 3, MODE>;
pub type PB4<MODE = Input> = Pin<1, 4, MODE>;
pub type PB5<MODE = Input> = Pin<1, 5, MODE>;
pub type PB6<MODE = Input> = Pin<1, 6, MODE>;
pub type PB7<MODE = Input> = Pin<1, 7, MODE>;
pub type PC0<MODE = Input> = Pin<2, 0, MODE>;
pub type PC1<MODE = Input> = Pin<2, 1, MODE>;
pub type PC2<MODE = Input> = Pin<2, 2, MODE>;
pub type PC3<MODE = Input> = Pin<2, 3, MODE>;
pub type PC4<MODE = Input> = Pin<2, 4, MODE>;
pub type PC5<MODE = Input> = Pin<2, 5, MODE>;
pub type PC6<MODE = Input> = Pin<2, 6, MODE>;
pub type PC7<MODE = Input> = Pin<2, 7, MODE>;
pub type PD0<MODE = Input> = Pin<3, 0, MODE>;
pub type PD1<MODE = Input> = Pin<3, 1, MODE>;
pub type PD2<MODE = Input> = Pin<3, 2, MODE>;
pub type PD3<MODE = Input> = Pin<3, 3, MODE>;
pub type PD4<MODE = Input> = Pin<3, 4, MODE>;
pub type PD5<MODE = Input> = Pin<3, 5, MODE>;
pub type PD6<MODE = Input> = Pin<3, 6, MODE>;
pub type PD7<MODE = Input> = Pin<3, 7, MODE>;
pub type PE0<MODE = Input> = Pin<4, 0, MODE>;
pub type PE1<MODE = Input> = Pin<4, 1, MODE>;
pub type PE2<MODE = Input> = Pin<4, 2, MODE>;
pub type PE3<MODE = Input> = Pin<4, 3, MODE>;

/// Every pad of the chip, each in input mode.
pub struct Pins {
    pub pa0: PA0,
    pub pa1: PA1,
    pub pa2: PA2,
    pub pa3: PA3,
    pub pa4: PA4,
    pub pa5: PA5,
    pub pa6: PA6,
    pub pa7: PA7,
    pub pb0: PB0,
    pub pb1: PB1,
    pub pb2: PB2,
    pub pb3: PB3,
    pub pb4: PB4,
    pub pb5: PB5,
    pub pb6: PB6,
    pub pb7: PB7,
    pub pc0: PC0,
    pub pc1: PC1,
    pub pc2: PC2,
    pub pc3: PC3,
    pub pc4: PC4,
    pub pc5: PC5,
    pub pc6: PC6,
    pub pc7: PC7,
    pub pd0: PD0,
    pub pd1: PD1,
    pub pd2: PD2,
    pub pd3: PD3,
    pub pd4: PD4,
    pub pd5: PD5,
    pub pd6: PD6,
    pub pd7: PD7,
    pub pe0: PE0,
    pub pe1: PE1,
    pub pe2: PE2,
    pub pe3: PE3,
}

impl Pins {
    pub fn new() -> (p: Self) {
        Pins {
            pa0: Pin::new(),
            pa1: Pin::new(),
            pa2: Pin::new(),
            pa3: Pin::new(),
            pa4: Pin::new(),
            pa5: Pin::new(),
            pa6: Pin::new(),
            pa7: Pin::new(),
            pb0: Pin::new(),
            pb1: Pin::new(),
            pb2: Pin::new(),
            pb3: Pin::new(),
            pb4: Pin::new(),
            pb5: Pin::new(),
            pb6: Pin::new(),
            pb7: Pin::new(),
            pc0: Pin::new(),
            pc1: Pin::new(),
            pc2: Pin::new(),
            pc3: Pin::new(),
            pc4: Pin::new(),
            pc5: Pin::new(),
            pc6: Pin::new(),
            pc7: Pin::new(),
            pd0: Pin::new(),
            pd1: Pin::new(),
            pd2: Pin::new(),
            pd3: Pin::new(),
            pd4: Pin::new(),
            pd5: Pin::new(),
            pd6: Pin::new(),
            pd7: Pin::new(),
            pe0: Pin::new(),
            pe1: Pin::new(),
            pe2: Pin::new(),
            pe3: Pin::new(),
        }
    }
}

/// The writes that make a pad a GPIO input.
pub open spec fn into_input_ops(port: u8, mask: u8) -> Seq<RegOp> {
    seq![
        bits8_op(port_reg(port, 6), mask, true),
        bits8_op(port_reg(port, 2), mask, true),
        input_enable_op(port, mask, true),
    ]
}

/// The writes that make a pad a GPIO output driving `high`.
pub open spec fn into_output_ops(port: u8, mask: u8, high: bool) -> Seq<RegOp> {
    seq![
        bits8_op(port_reg(port, 6), mask, true),
        bits8_op(port_reg(port, 3), mask, high),
        input_enable_op(port, mask, false),
        bits8_op(port_reg(port, 2), mask, false),
    ]
}

/// The register that routes a pad's interrupt to `route`.
pub open spec fn route_register(port: u8, route: InterruptRoute) -> u32 {
    match route {
        InterruptRoute::Core => port_reg(port, 7),
        InterruptRoute::Risc0 => (GPIO_BASE + 0x38 + port) as u32,
        InterruptRoute::Risc1 => (GPIO_BASE + 0x40 + port) as u32,
    }
}

/// The interrupt controller bit of a route.
pub open spec fn route_irq_bit(route: InterruptRoute) -> u32 {
    match route {
        InterruptRoute::Core => 0x0004_0000,
        InterruptRoute::Risc0 => 0x0020_0000,
        InterruptRoute::Risc1 => 0x0040_0000,
    }
}

/// The writes that enable a pad's interrupt on `edge` through `route`.
pub open spec fn enable_interrupt_ops(port: u8, mask: u8, route: InterruptRoute, edge: InterruptEdge) -> Seq<RegOp> {
    seq![bits8_op(port_reg(port, 4), mask, edge == InterruptEdge::Falling)] + (if route == InterruptRoute::Core {
        seq![bits8_op((GPIO_BASE + 0x35) as u32, 8, true)]
    } else {
        Seq::empty()
    }) + seq![
        RegOp::Write32 { addr: (IRQ_BASE + 8) as u32, value: route_irq_bit(route) },
        RegOp::Modify32 { addr: IRQ_BASE, clear: 0, set: route_irq_bit(route) },
        bits8_op(route_register(port, route), mask, true),
    ]
}

impl<const PORT: u8, const BIT: u8, MODE> Pin<PORT, BIT, MODE> {
    fn new() -> (p: Self) {
        Pin { _mode: PhantomData }
    }

    /// The pad's bit in its port registers.
    pub fn mask() -> (m: u8)
        requires
            BIT < 8,
        ensures
            m == 1u8 << BIT,
    {
        1u8 << BIT
    }

    pub fn raw_pin() -> (r: RawPin)
        requires
            BIT < 8,
        ensures
            r.value() == ((PORT as u16) << 8u16) | (1u16 << (BIT as u16)),
            decode_checked(r.value()) == Some((PORT, BIT, 1u8 << BIT)) || !valid_pad(PORT, BIT),
            (r.value() / 256) as u8 == PORT,
            (r.value() % 256) as u8 == 1u8 << BIT,
            mask_bit((r.value() % 256) as u8) == Some(BIT),
    {
        proof {
            lemma_raw_pin_bits(PORT, BIT);
            if valid_pad(PORT, BIT) {
                lemma_raw_pin_round_trip(PORT, BIT);
            }
        }
        RawPin::from_parts(PORT, BIT)
    }

    /// Connects the pad to `function`.
    pub fn set_function(&mut self, ops: &mut Vec<RegOp>, function: PinFunction) -> (r: Result<(), PinmuxError>)
        requires
            valid_pad(PORT, BIT),
        ensures
            r matches Err(e) ==> e == (PinmuxError::UnsupportedPair {
                raw_pin: RawPin::spec_from_parts(PORT, BIT),
                function,
            }) && final(ops)@ == old(ops)@,
            r is Err <==> (function != PinFunction::Gpio && pinmux_table(
                RawPin::spec_from_parts(PORT, BIT).value(),
                function,
            ) is None),
            r is Ok ==> final(ops)@ == old(ops)@ + function_ops(
                RawPin::spec_from_parts(PORT, BIT).value(),
                PORT,
                BIT,
                1u8 << BIT,
                function,
            ),
    {
        let raw = Self::raw_pin();
        set_function_raw(ops, raw, function)
    }

    /// Address of register `offset` of the pad's port.
    pub fn reg(offset: u32) -> (a: u32)
        requires
            offset < 8,
        ensures
            a == port_reg(PORT, offset),
    {
        reg_raw(PORT, offset)
    }

    pub fn route_reg(route: InterruptRoute) -> (a: u32)
        ensures
            a == route_register(PORT, route),
    {
        match route {
            InterruptRoute::Core => Self::reg(0x07),
            InterruptRoute::Risc0 => GPIO_BASE + 0x38 + PORT as u32,
            InterruptRoute::Risc1 => GPIO_BASE + 0x40 + PORT as u32,
        }
    }

    fn modify_reg(ops: &mut Vec<RegOp>, offset: u32, set: bool)
        requires
            offset < 8,
            BIT < 8,
        ensures
            final(ops)@ == old(ops)@.push(bits8_op(port_reg(PORT, offset), 1u8 << BIT, set)),
    {
        ops.push(modify_bits8(Self::reg(offset), Self::mask(), set));
    }

    fn modify_raw_reg(ops: &mut Vec<RegOp>, reg: u32, mask: u8, set: bool)
        ensures
            final(ops)@ == old(ops)@.push(bits8_op(reg, mask, set)),
    {
        ops.push(modify_bits8(reg, mask, set));
    }

    fn write_irq_mask(ops: &mut Vec<RegOp>, mask: u32)
        ensures
            final(ops)@ == old(ops)@.push(RegOp::Modify32 { addr: IRQ_BASE, clear: 0, set: mask }),
    {
        ops.push(RegOp::Modify32 { addr: IRQ_BASE, clear: 0, set: mask });
    }

    fn clear_irq_src(ops: &mut Vec<RegOp>, mask: u32)
        ensures
            final(ops)@ == old(ops)@.push(RegOp::Write32 { addr: (IRQ_BASE + 8) as u32, value: mask }),
    {
        ops.push(RegOp::Write32 { addr: IRQ_BASE + 0x08, value: mask });
    }

    fn set_wakeup_irq_flag(ops: &mut Vec<RegOp>, mask: u8, enabled: bool)
        ensures
            final(ops)@ == old(ops)@.push(bits8_op((GPIO_BASE + 0x35) as u32, mask, enabled)),
    {
        Self::modify_raw_reg(ops, GPIO_BASE + 0x35, mask, enabled);
    }

    /// The analog register and bit offset of the pad's pull field.
    pub fn pull_addr_shift() -> (r: Option<(u8, u8)>)
        ensures
            r == pull_location(PORT, BIT),
    {
        pull_addr_shift_raw(PORT, BIT)
    }

    fn configure_as_gpio(ops: &mut Vec<RegOp>)
        requires
            BIT < 8,
        ensures
            final(ops)@ == old(ops)@.push(bits8_op(port_reg(PORT, 6), 1u8 << BIT, true)),
    {
        Self::modify_reg(ops, 0x06, true);
    }

    fn set_input_enabled(ops: &mut Vec<RegOp>, enabled: bool)
        requires
            BIT < 8,
        ensures
            final(ops)@ == old(ops)@.push(input_enable_op(PORT, 1u8 << BIT, enabled)),
    {
        if PORT == PORT_B {
            ops.push(analog_modify_bits(0xbd, Self::mask(), enabled));
        } else if PORT == PORT_C {
            ops.push(analog_modify_bits(0xc0, Self::mask(), enabled));
        } else {
            Self::modify_reg(ops, 0x01, enabled);
        }
    }

    /// Output enable is active-low in the hardware register.
    fn set_output_enabled(ops: &mut Vec<RegOp>, enabled: bool)
        requires
            BIT < 8,
        ensures
            final(ops)@ == old(ops)@.push(bits8_op(port_reg(PORT, 2), 1u8 << BIT, !enabled)),
    {
        Self::modify_reg(ops, 0x02, !enabled);
    }

    fn write_data(ops: &mut Vec<RegOp>, high: bool)
        requires
            BIT < 8,
        ensures
            final(ops)@ == old(ops)@.push(bits8_op(port_reg(PORT, 3), 1u8 << BIT, high)),
    {
        Self::modify_reg(ops, 0x03, high);
    }

    fn set_drive_strength_raw(ops: &mut Vec<RegOp>, strong: bool)
        requires
            BIT < 8,
        ensures
            final(ops)@ == old(ops)@.push(drive_strength_op(PORT, 1u8 << BIT, strong)),
    {
        if PORT == PORT_B {
            ops.push(analog_modify_bits(0xbf, Self::mask(), strong));
        } else if PORT == PORT_C {
            ops.push(analog_modify_bits(0xc2, Self::mask(), strong));
        } else {
            Self::modify_reg(ops, 0x05, strong);
        }
    }

    fn set_interrupt_polarity(ops: &mut Vec<RegOp>, edge: InterruptEdge)
        requires
            BIT < 8,
        ensures
            final(ops)@ == old(ops)@.push(bits8_op(port_reg(PORT, 4), 1u8 << BIT, edge == InterruptEdge::Falling)),
    {
        Self::modify_reg(ops, 0x04, edge == InterruptEdge::Falling);
    }

    /// The pad's level in a value read from its input register.
    pub fn read_input_level(input_reg: u8) -> (high: bool)
        requires
            BIT < 8,
        ensures
            high == (input_reg & (1u8 << BIT) != 0),
    {
        (input_reg & Self::mask()) != 0
    }

    /// The pad's driven level in a value read from its output register.
    pub fn read_output_level(output_reg: u8) -> (high: bool)
        requires
            BIT < 8,
        ensures
            high == (output_reg & (1u8 << BIT) != 0),
    {
        (output_reg & Self::mask()) != 0
    }

    pub fn into_input(self, ops: &mut Vec<RegOp>) -> (p: Pin<PORT, BIT, Input>)
        requires
            BIT < 8,
        ensures
            final(ops)@ == old(ops)@ + into_input_ops(PORT, 1u8 << BIT),
    {
        let ghost start = ops@;
        Self::configure_as_gpio(ops);
        Self::set_output_enabled(ops, false);
        Self::set_input_enabled(ops, true);
        assert(ops@ =~= start + into_input_ops(PORT, 1u8 << BIT));
        Pin::new()
    }

    pub fn into_output(self, ops: &mut Vec<RegOp>) -> (p: Pin<PORT, BIT, Output>)
        requires
            BIT < 8,
        ensures
            final(ops)@ == old(ops)@ + into_output_ops(PORT, 1u8 << BIT, false),
    {
        self.into_output_with_state(ops, Level::Low)
    }

    pub fn into_output_with_state(self, ops: &mut Vec<RegOp>, initial: Level) -> (p: Pin<PORT, BIT, Output>)
        requires
            BIT < 8,
        ensures
            final(ops)@ == old(ops)@ + into_output_ops(PORT, 1u8 << BIT, initial == Level::High),
    {
        let ghost start = ops@;
        Self::configure_as_gpio(ops);
        Self::write_data(ops, initial == Level::High);
        Self::set_input_enabled(ops, false);
        Self::set_output_enabled(ops, true);
        assert(ops@ =~= start + into_output_ops(PORT, 1u8 << BIT, initial == Level::High));
        Pin::new()
    }

    pub fn set_drive_strength(&mut self, ops: &mut Vec<RegOp>, strength: DriveStrength)
        requires
            BIT < 8,
        ensures
            final(ops)@ == old(ops)@.push(drive_strength_op(PORT, 1u8 << BIT, strength == DriveStrength::Strong)),
    {
        Self::set_drive_strength_raw(ops, strength == DriveStrength::Strong);
    }

    pub fn set_pull_resistor(&mut self, ops: &mut Vec<RegOp>, pull: Pull)
        ensures
            final(ops)@ == old(ops)@ + pull_ops(PORT, BIT, pull),
    {
        let ghost start = ops@;
        match Self::pull_addr_shift() {
            Some((addr, shift)) => {
                ops.push(RegOp::AnalogModify { reg: addr, clear: 3u8 << shift, set: pull.bits() << shift });
                assert(ops@ =~= start + pull_ops(PORT, BIT, pull));
            },
            None => {
                assert(ops@ =~= start + pull_ops(PORT, BIT, pull));
            },
        }
    }

    pub fn set_interrupt_edge(&mut self, ops: &mut Vec<RegOp>, edge: InterruptEdge)
        requires
            BIT < 8,
        ensures
            final(ops)@ == old(ops)@.push(bits8_op(port_reg(PORT, 4), 1u8 << BIT, edge == InterruptEdge::Falling)),
    {
        Self::set_interrupt_polarity(ops, edge);
    }

    /// Enables the pad interrupt on `edge`, routed to `route`.
    pub fn enable_interrupt(&mut self, ops: &mut Vec<RegOp>, route: InterruptRoute, edge: InterruptEdge)
        requires
            BIT < 8,
        ensures
            final(ops)@ == old(ops)@ + enable_interrupt_ops(PORT, 1u8 << BIT, route, edge),
    {
        let ghost start = ops@;
        Self::set_interrupt_polarity(ops, edge);
        match route {
            InterruptRoute::Core => {
                Self::set_wakeup_irq_flag(ops, 0x08, true);
                Self::clear_irq_src(ops, 0x0004_0000);
                Self::write_irq_mask(ops, 0x0004_0000);
            },
            InterruptRoute::Risc0 => {
                Self::clear_irq_src(ops, 0x0020_0000);
                Self::write_irq_mask(ops, 0x0020_0000);
            },
            InterruptRoute::Risc1 => {
                Self::clear_irq_src(ops, 0x0040_0000);
                Self::write_irq_mask(ops, 0x0040_0000);
            },
        }
        Self::modify_raw_reg(ops, Self::route_reg(route), Self::mask(), true);
        assert(ops@ =~= start + enable_interrupt_ops(PORT, 1u8 << BIT, route, edge));
    }

    pub fn disable_interrupt(&mut self, ops: &mut Vec<RegOp>, route: InterruptRoute)
        requires
            BIT < 8,
        ensures
            final(ops)@ == old(ops)@.push(bits8_op(route_register(PORT, route), 1u8 << BIT, false)),
    {
        Self::modify_raw_reg(ops, Self::route_reg(route), Self::mask(), false);
    }

    /// Lets an `edge` on the pad wake the chip from sleep.
    pub fn enable_wakeup(&mut self, ops: &mut Vec<RegOp>, edge: InterruptEdge)
        requires
            BIT < 8,
        ensures
            final(ops)@ == old(ops)@ + seq![
                bits8_op(port_reg(PORT, 4), 1u8 << BIT, edge == InterruptEdge::Falling),
                bits8_op((GPIO_BASE + 0x35) as u32, 4, true),
                bits8_op(port_reg(PORT, 7), 1u8 << BIT, true),
            ],
    {
        let ghost start = ops@;
        Self::set_interrupt_polarity(ops, edge);
        Self::set_wakeup_irq_flag(ops, 0x04, true);
        Self::modify_raw_reg(ops, Self::route_reg(InterruptRoute::Core), Self::mask(), true);
        assert(ops@ =~= start + seq![
            bits8_op(port_reg(PORT, 4), 1u8 << BIT, edge == InterruptEdge::Falling),
            bits8_op((GPIO_BASE + 0x35) as u32, 4, true),
            bits8_op(port_reg(PORT, 7), 1u8 << BIT, true),
        ]);
    }

    pub fn disable_wakeup(&mut self, ops: &mut Vec<RegOp>)
        requires
            BIT < 8,
        ensures
            final(ops)@ == old(ops)@.push(bits8_op(port_reg(PORT, 7), 1u8 << BIT, false)),
    {
        Self::modify_raw_reg(ops, Self::route_reg(InterruptRoute::Core), Self::mask(), false);
    }
}

impl<const PORT: u8, const BIT: u8> Pin<PORT, BIT, Output> {
    pub fn set_output_high(&mut self, ops: &mut Vec<RegOp>)
        requires
            BIT < 8,
        ensures
            final(ops)@ == old(ops)@.push(bits8_op(port_reg(PORT, 3), 1u8 << BIT, true)),
    {
        Self::write_data(ops, true);
    }

    pub fn set_output_low(&mut self, ops: &mut Vec<RegOp>)
        requires
            BIT < 8,
        ensures
            final(ops)@ == old(ops)@.push(bits8_op(port_reg(PORT, 3), 1u8 << BIT, false)),
    {
        Self::write_data(ops, false);
    }

    /// Drives the opposite of the level in `output_reg`, a value read from
    /// the pad's output register.
    pub fn toggle_output(&mut self, ops: &mut Vec<RegOp>, output_reg: u8)
        requires
            BIT < 8,
        ensures
            final(ops)@ == old(ops)@.push(bits8_op(port_reg(PORT, 3), 1u8 << BIT, output_reg & (1u8 << BIT) == 0)),
    {
        Self::write_data(ops, !Self::read_output_level(output_reg));
    }

    pub fn output_is_set_high(&self, output_reg: u8) -> (b: bool)
        requires
            BIT < 8,
        ensures
            b == (output_reg & (1u8 << BIT) != 0),
    {
        Self::read_output_level(output_reg)
    }

    pub fn output_is_set_low(&self, output_reg: u8) -> (b: bool)
        requires
            BIT < 8,
        ensures
            b == (output_reg & (1u8 << BIT) == 0),
    {
        !Self::read_output_level(output_reg)
    }
}

impl<const PORT: u8, const BIT: u8> Pin<PORT, BIT, Input> {
    pub fn input_is_high(&self, input_reg: u8) -> (b: bool)
        requires
            BIT < 8,
        ensures
            b == (input_reg & (1u8 << BIT) != 0),
    {
        Self::read_input_level(input_reg)
    }

    pub fn input_is_low(&self, input_reg: u8) -> (b: bool)
        requires
            BIT < 8,
        ensures
            b == (input_reg & (1u8 << BIT) == 0),
    {
        !Self::read_input_level(input_reg)
    }
}

} // verus!
