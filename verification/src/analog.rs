//! Analog register file: pull resistor codes and register writes.

use vstd::prelude::*;
use crate::mmio::RegOp;

verus! {

/// Base of the analog register access window.
pub const ANALOG_CTRL_BASE: u32 = 0x0080_00B8;

#[derive(Clone, Copy, Debug, PartialEq, Eq, Structural)]
pub enum Pull {
    Floating,
    PullUp1M,
    PullDown100K,
    PullUp10K,
}

pub open spec fn pull_code(p: Pull) -> u8 {
    match p {
        Pull::Floating => 0,
        Pull::PullUp1M => 1,
        Pull::PullDown100K => 2,
        Pull::PullUp10K => 3,
    }
}

impl Pull {
    /// The two-bit pull code of the pad control registers.
    pub fn bits(self) -> (b: u8)
        ensures
            b == pull_code(self),
            b <= 3,
    {
        match self {
            Pull::Floating => 0,
            Pull::PullUp1M => 1,
            Pull::PullDown100K => 2,
            Pull::PullUp10K => 3,
        }
    }
}

/// Writes `value` to analog register `addr`.
pub fn write(ops: &mut Vec<RegOp>, addr: u8, value: u8)
    ensures
        final(ops)@ == old(ops)@.push(RegOp::AnalogWrite { reg: addr, value }),
{
    ops.push(RegOp::AnalogWrite { reg: addr, value });
}

} // verus!
