//! Laws of the flash identification, the pad multiplexer and the ADC
//! filter, stated over the spec functions their drivers' contracts use.

use vstd::prelude::*;
use crate::adc::{sample_of_sorted, sorted8};
use crate::flash::{capacity_bytes, capacity_of_code, FlashCapacity};
use crate::gpio::{pinmux_table, PinFunction, PinmuxMode};

verus! {

/// JEDEC capacity codes count in powers of two: code 0x10 is 64 KiB, each
/// following code up to 0x17 doubles the size (so 0x13 is 512 KiB and
/// 0x17 is 8 MiB), and any other code names no known size.
pub proof fn lemma_capacity_code_doubles(code: u32)
    ensures
        capacity_bytes(capacity_of_code(0x10)) == Some(65536usize),
        0x10 <= code < 0x17 ==> capacity_bytes(capacity_of_code(code)) is Some && capacity_bytes(
            capacity_of_code((code + 1) as u32),
        ) == Some((2 * capacity_bytes(capacity_of_code(code))->Some_0) as usize),
        (code < 0x10 || code > 0x17) ==> capacity_bytes(capacity_of_code(code)) is None,
        0x10 <= code <= 0x17 ==> capacity_of_code(code) != FlashCapacity::Unknown(code as u8),
{
}

/// The sizes of the known capacity codes are distinct: two codes in
/// 0x10..=0x17 name the same size only when they are the same code.
pub proof fn lemma_capacity_codes_distinct(a: u32, b: u32)
    requires
        0x10 <= a <= 0x17,
        0x10 <= b <= 0x17,
        capacity_bytes(capacity_of_code(a)) == capacity_bytes(capacity_of_code(b)),
    ensures
        a == b,
{
}

/// On one pad, two different peripheral functions are never reached
/// through the same multiplexer selector, except SPI and I2C, which share
/// the serial block behind one selector on the pads that offer both.
/// Selectors are two-bit values 0, 1 or 2.
pub proof fn lemma_pinmux_selectors_distinct(raw: u16, f1: PinFunction, f2: PinFunction, k: u8)
    requires
        f1 != f2,
        pinmux_table(raw, f1) == Some(PinmuxMode::Selector(k)),
        pinmux_table(raw, f2) == Some(PinmuxMode::Selector(k)),
    ensures
        (f1 == PinFunction::Spi && f2 == PinFunction::I2c) || (f1 == PinFunction::I2c && f2 == PinFunction::Spi),
{
}

/// Every selector in the table is one of the three the mux registers
/// take, and GPIO needs none.
pub proof fn lemma_pinmux_selector_range(raw: u16, f: PinFunction)
    ensures
        pinmux_table(raw, f) matches Some(PinmuxMode::Selector(k)) ==> k <= 2,
        pinmux_table(raw, PinFunction::Gpio) is None,
{
}

/// The converted voltage comes from the middle four of the eight sorted
/// codes only: the two lowest and the two highest codes (spikes) do not
/// change it.
pub proof fn lemma_filter_drops_extremes(s1: Seq<u16>, s2: Seq<u16>, vref: u16)
    requires
        s1.len() == 8,
        s2.len() == 8,
        sorted8(s1),
        sorted8(s2),
        forall|i: int| 2 <= i < 6 ==> s1[i] == s2[i],
    ensures
        sample_of_sorted(s1, vref).millivolts == sample_of_sorted(s2, vref).millivolts,
{
}

/// A steady input converts to its own code scaled by the 1/8 prescaler and
/// the 13-bit range, and the fluctuation of a steady input is zero.
pub proof fn lemma_filter_steady_input(s: Seq<u16>, c: u16, vref: u16)
    requires
        s.len() == 8,
        forall|i: int| 0 <= i < 8 ==> s[i] == c,
    ensures
        sample_of_sorted(s, vref).millivolts == (c * 8 * vref) / 8192,
        sample_of_sorted(s, vref).fluctuation_mv == 0,
{
    assert(s[2] + s[3] + s[4] + s[5] == 4 * c);
    assert((s[2] + s[3] + s[4] + s[5]) / 4 == c);
    lemma_scaled_fits(c as int, vref);
    assert(s[7] - s[0] == 0);
    assert((s[7] - s[0]) * 8 * vref == 0) by (nonlinear_arith)
        requires
            s[7] - s[0] == 0,
    ;
    assert(c == 0 ==> c * 8 * vref == 0) by (nonlinear_arith);
}

proof fn lemma_scaled_fits(avg: int, vref: u16)
    requires
        0 <= avg <= 0xffff,
    ensures
        0 <= (avg * 8 * vref) / 8192 < 0x1_0000_0000,
{
    assert(0 <= avg * 8 * vref <= 0xffff * 8 * 0xffff) by (nonlinear_arith)
        requires
            0 <= avg <= 0xffff,
            0 <= vref <= 0xffff,
    ;
}

/// The converted voltage lies between the conversions of the third lowest
/// and the third highest code.
pub proof fn lemma_filter_within_middle(s: Seq<u16>, vref: u16)
    requires
        s.len() == 8,
        sorted8(s),
        (s[2] + s[3] + s[4] + s[5]) / 4 > 0,
    ensures
        (s[2] * 8 * vref) / 8192 <= sample_of_sorted(s, vref).millivolts <= (s[5] * 8 * vref) / 8192,
{
    let avg = (s[2] + s[3] + s[4] + s[5]) / 4;
    assert(s[2] <= s[3] && s[3] <= s[4] && s[4] <= s[5]);
    assert(s[2] <= avg <= s[5]);
    lemma_scaled_fits(avg, vref);
    assert(s[2] * 8 * vref <= avg * 8 * vref) by (nonlinear_arith)
        requires
            s[2] <= avg,
            0 <= vref,
    ;
    assert(avg * 8 * vref <= s[5] * 8 * vref) by (nonlinear_arith)
        requires
            avg <= s[5],
            0 <= vref,
    ;
    assert((s[2] * 8 * vref) / 8192 <= (avg * 8 * vref) / 8192) by (nonlinear_arith)
        requires
            s[2] * 8 * vref <= avg * 8 * vref,
    ;
    assert((avg * 8 * vref) / 8192 <= (s[5] * 8 * vref) / 8192) by (nonlinear_arith)
        requires
            avg * 8 * vref <= s[5] * 8 * vref,
    ;
}


/// Only the USB pads (PA5, PA6) and the memory-SPI pads (PE0..PE3) are
/// wired to their function without a selector, and only to that function.
pub proof fn lemma_pinmux_fixed_pads(raw: u16, f: PinFunction)
    ensures
        pinmux_table(raw, f) == Some(PinmuxMode::FixedNoMux) <==> ((f == PinFunction::Usb && (raw == 0x0020 || raw
            == 0x0040)) || (f == PinFunction::Mspi && (raw == 0x0401 || raw == 0x0402 || raw == 0x0404 || raw
            == 0x0408))),
{
}

/// The fluctuation is the spread between the lowest and the highest code
/// only: the six codes between them do not change it (as long as the
/// middle four are not all zero).
pub proof fn lemma_fluctuation_from_extremes(s1: Seq<u16>, s2: Seq<u16>, vref: u16)
    requires
        s1.len() == 8,
        s2.len() == 8,
        s1[0] == s2[0],
        s1[7] == s2[7],
        (s1[2] + s1[3] + s1[4] + s1[5]) / 4 > 0,
        (s2[2] + s2[3] + s2[4] + s2[5]) / 4 > 0,
    ensures
        sample_of_sorted(s1, vref).fluctuation_mv == sample_of_sorted(s2, vref).fluctuation_mv,
{
}

} // verus!
