//! Register programs, radio framing and over-the-air update logic for
//! Telink TLSR82xx microcontrollers.

use vstd::prelude::*;

pub mod mmio;
pub mod analog;
pub mod gpio;
pub mod bytes;
pub mod flash;
pub mod regs;
pub mod radio;
pub mod timer;
pub mod startup;
pub mod pm;
pub mod sleep;
pub mod interrupt;
pub mod adc;
pub mod uart;
pub mod pwm;
pub mod clock;
pub mod i2c;
pub mod spi;
pub mod ble;
pub mod boards;
pub mod laws;

verus! {

} // verus!
