//! The TB-03F module: two LEDs, one button, and its UART, PWM and radio
//! front-end pads.

use vstd::prelude::*;

use crate::analog::Pull;
use crate::gpio::{
    drive_strength_op, function_error, function_ops, into_input_ops, into_output_ops, pinmux_table, pull_ops,
    set_function_for_raw_pin, DriveStrength, Input, Level, Output, Pin, PinFunction, PinmuxError, Pins, RawPin, PA7,
    PB2, PB3, PB4, PB5,
};
use crate::mmio::RegOp;
use crate::uart;

verus! {

/// The board's LEDs and button, ready to use.
pub struct Board {
    pub led_y: PB4<Output>,
    pub led_w: PB5<Output>,
    pub button1: PA7<Input>,
}

/// The writes of `from_pins`: yellow LED on and white LED off, both
/// strongly driven; the button an input with the 1 MΩ pull-up.
pub open spec fn board_ops() -> Seq<RegOp> {
    into_output_ops(1, 16, true) + into_output_ops(1, 32, false) + into_input_ops(0, 128) + seq![
        drive_strength_op(1, 16, true),
        drive_strength_op(1, 32, true),
    ] + pull_ops(0, 7, Pull::PullUp1M)
}

impl Board {
    pub fn from_pins(ops: &mut Vec<RegOp>, pins: Pins) -> (b: Self)
        ensures
            final(ops)@ == old(ops)@ + board_ops(),
    {
        let ghost start = ops@;
        let mut led_y = pins.pb4.into_output_with_state(ops, Level::High);
        let mut led_w = pins.pb5.into_output_with_state(ops, Level::Low);
        let mut button1 = pins.pa7.into_input(ops);
        led_y.set_drive_strength(ops, DriveStrength::Strong);
        led_w.set_drive_strength(ops, DriveStrength::Strong);
        button1.set_pull_resistor(ops, Pull::PullUp1M);
        assert(1u8 << 4u8 == 16u8 && 1u8 << 5u8 == 32u8 && 1u8 << 7u8 == 128u8) by (bit_vector);
        assert(ops@ =~= start + board_ops());
        Board { led_y, led_w, button1 }
    }

    /// The board from all the chip's pads.
    pub fn from_peripherals(ops: &mut Vec<RegOp>) -> (b: Self)
        ensures
            final(ops)@ == old(ops)@ + board_ops(),
    {
        Board::from_pins(ops, Pins::new())
    }

    /// Whether the button is held (it pulls PA7 low), from port A's input
    /// register.
    pub fn button1_pressed(&self, input_reg: u8) -> (b: bool)
        ensures
            b == (input_reg & 0x80 == 0),
    {
        assert(1u8 << 7u8 == 0x80u8) by (bit_vector);
        self.button1.input_is_low(input_reg)
    }
}

/// The writes that give PC2, PC3 and PC4 to PWM0, PWM1 and PWM2 (a pad
/// the table does not route is left alone).
pub open spec fn rgb_ops() -> Seq<RegOp> {
    pwm_pad_ops(0x0204, 2, 4, PinFunction::Pwm0) + pwm_pad_ops(0x0208, 3, 8, PinFunction::Pwm1) + pwm_pad_ops(
        0x0210,
        4,
        16,
        PinFunction::Pwm2,
    )
}

pub open spec fn pwm_pad_ops(raw: u16, bit: u8, mask: u8, function: PinFunction) -> Seq<RegOp> {
    if pinmux_table(raw, function) is None {
        Seq::empty()
    } else {
        function_ops(raw, 2, bit, mask, function)
    }
}

/// Routes the RGB LED pads to the PWM channels.
pub fn configure_rgb_pins(ops: &mut Vec<RegOp>, pins: &mut Pins)
    ensures
        final(ops)@ == old(ops)@ + rgb_ops(),
{
    let ghost start = ops@;
    proof {
        assert(((2u16 << 8u16) | (1u16 << 2u16)) == 0x0204u16) by (bit_vector);
        assert(((2u16 << 8u16) | (1u16 << 3u16)) == 0x0208u16) by (bit_vector);
        assert(((2u16 << 8u16) | (1u16 << 4u16)) == 0x0210u16) by (bit_vector);
        assert(1u8 << 2u8 == 4u8 && 1u8 << 3u8 == 8u8 && 1u8 << 4u8 == 16u8) by (bit_vector);
        RawPin::lemma_spec_from_parts(2, 2);
        RawPin::lemma_spec_from_parts(2, 3);
        RawPin::lemma_spec_from_parts(2, 4);
    }
    let _ = pins.pc2.set_function(ops, PinFunction::Pwm0);
    let _ = pins.pc3.set_function(ops, PinFunction::Pwm1);
    let _ = pins.pc4.set_function(ops, PinFunction::Pwm2);
    assert(ops@ =~= start + rgb_ops());
}

/// Routes the UART to PB1 (TX) and PA0 (RX).
pub fn configure_uart_pins(ops: &mut Vec<RegOp>)
    ensures
        final(ops)@ == old(ops)@ + uart::apply_pins_ops(uart::Pins { tx: uart::TxPin::Pb1, rx: uart::RxPin::Pa0 }),
{
    uart::apply_pins(ops, uart::Pins::pb1_pa0());
}

/// Routes the radio front end: PB2 to the LNA control, PB3 to the PA
/// control.
pub fn configure_radio_fe_pins(ops: &mut Vec<RegOp>) -> (r: Result<(), PinmuxError>)
    ensures
        ({
            let pb2 = RawPin::spec_from_parts(1, 2);
            let pb3 = RawPin::spec_from_parts(1, 3);
            match function_error(pb2, PinFunction::RxCyc2Lna) {
                Some(e) => r == Err::<(), PinmuxError>(e) && final(ops)@ == old(ops)@,
                None => match function_error(pb3, PinFunction::TxCyc2Pa) {
                    Some(e) => r == Err::<(), PinmuxError>(e) && final(ops)@ == old(ops)@ + function_ops(
                        pb2.value(),
                        1,
                        2,
                        4,
                        PinFunction::RxCyc2Lna,
                    ),
                    None => r is Ok && final(ops)@ == old(ops)@ + function_ops(
                        pb2.value(),
                        1,
                        2,
                        4,
                        PinFunction::RxCyc2Lna,
                    ) + function_ops(pb3.value(), 1, 3, 8, PinFunction::TxCyc2Pa),
                },
            }
        }),
{
    let ghost start = ops@;
    let pb2 = PB2::<Input>::raw_pin();
    let pb3 = PB3::<Input>::raw_pin();
    proof {
        RawPin::lemma_spec_from_parts(1, 2);
        RawPin::lemma_spec_from_parts(1, 3);
        assert(((1u16 << 8u16) | (1u16 << 2u16)) == 0x0104u16) by (bit_vector);
        assert(((1u16 << 8u16) | (1u16 << 3u16)) == 0x0108u16) by (bit_vector);
        assert(1u8 << 2u8 == 4u8 && 1u8 << 3u8 == 8u8) by (bit_vector);
    }
    set_function_for_raw_pin(ops, pb2, PinFunction::RxCyc2Lna)?;
    set_function_for_raw_pin(ops, pb3, PinFunction::TxCyc2Pa)?;
    Ok(())
}

} // verus!
