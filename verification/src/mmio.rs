//! Register operations that drivers emit and an executor applies to the bus.

use vstd::prelude::*;

verus! {

/// One access to the digital (memory mapped) or analog register space.
///
/// `Modify*` is a read-modify-write: the register becomes
/// `(old & !clear) | set`.
#[allow(inconsistent_fields)]
#[derive(Clone, Copy, Debug, PartialEq, Eq, Structural)]
pub enum RegOp {
    Write8 { addr: u32, value: u8 },
    Write16 { addr: u32, value: u16 },
    Write32 { addr: u32, value: u32 },
    Modify8 { addr: u32, clear: u8, set: u8 },
    Modify16 { addr: u32, clear: u16, set: u16 },
    Modify32 { addr: u32, clear: u32, set: u32 },
    AnalogWrite { reg: u8, value: u8 },
    AnalogModify { reg: u8, clear: u8, set: u8 },
    /// Busy-waits until `(register & mask) == 0`.
    WaitClear8 { addr: u32, mask: u8 },
    /// Busy-waits until `(register & mask) != 0`.
    WaitSet8 { addr: u32, mask: u8 },
    /// Busy-waits for `cycles` iterations of a counting loop.
    DelayCycles { cycles: u32 },
    /// Busy-waits for `us` microseconds of the system timer.
    DelayUs { us: u32 },
}

/// The read-modify-write that sets `mask` when `on` and clears it otherwise.
pub open spec fn bits8_op(addr: u32, mask: u8, on: bool) -> RegOp {
    if on { RegOp::Modify8 { addr, clear: 0, set: mask } } else { RegOp::Modify8 { addr, clear: mask, set: 0 } }
}

/// The same on an analog register.
pub open spec fn analog_bits_op(reg: u8, mask: u8, on: bool) -> RegOp {
    if on { RegOp::AnalogModify { reg, clear: 0, set: mask } } else { RegOp::AnalogModify { reg, clear: mask, set: 0 } }
}

/// Read-modify-write of one bit mask: set it when `on`, clear it otherwise.
pub fn modify_bits8(addr: u32, mask: u8, on: bool) -> (op: RegOp)
    ensures
        op == bits8_op(addr, mask, on),
{
    if on {
        RegOp::Modify8 { addr, clear: 0, set: mask }
    } else {
        RegOp::Modify8 { addr, clear: mask, set: 0 }
    }
}

/// Read-modify-write of one bit mask of an analog register.
pub fn analog_modify_bits(reg: u8, mask: u8, on: bool) -> (op: RegOp)
    ensures
        op == analog_bits_op(reg, mask, on),
{
    if on {
        RegOp::AnalogModify { reg, clear: 0, set: mask }
    } else {
        RegOp::AnalogModify { reg, clear: mask, set: 0 }
    }
}

} // verus!
