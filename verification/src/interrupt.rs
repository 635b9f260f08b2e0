//! Interrupt controller: interrupt numbers, mask and source register
//! writes, handler tables and the dispatch order of pending interrupts.
//!
//! Handlers are named by the address of their code (`usize`); the table
//! only records and looks them up.

use vstd::prelude::*;
use crate::mmio::RegOp;

verus! {

pub const ALL_IRQS: u32 = 0xffff_ffff;
pub const REG_IRQ_MASK: u32 = 0x0080_0640;
pub const REG_IRQ_EN: u32 = 0x0080_0643;
pub const REG_IRQ_SRC: u32 = 0x0080_0648;
pub const REG_TMR_STA: u32 = 0x0080_0623;
pub const REG_RF_IRQ_MASK: u32 = 0x0080_0f1c;
pub const REG_RF_IRQ_STATUS: u32 = 0x0080_0f20;

#[derive(Clone, Copy, Debug, PartialEq, Eq, Structural)]
pub enum Irq {
    Timer0,
    Timer1,
    Timer2,
    UsbPwrdn,
    Dma,
    DmaFifo,
    Uart,
    MixCmd,
    Ep0Setup,
    Ep0Data,
    Ep0Status,
    SetInterface,
    EndpointData,
    ZigbeeRadio,
    SoftwarePwm,
    Usb250us,
    UsbReset,
    Gpio,
    PowerManagement,
    SystemTimer,
    GpioRisc0,
    GpioRisc1,
}

/// The interrupt number of each source.
pub open spec fn irq_bit(irq: Irq) -> u8 {
    match irq {
        Irq::Timer0 => 0,
        Irq::Timer1 => 1,
        Irq::Timer2 => 2,
        Irq::UsbPwrdn => 3,
        Irq::Dma => 4,
        Irq::DmaFifo => 5,
        Irq::Uart => 6,
        Irq::MixCmd => 7,
        Irq::Ep0Setup => 8,
        Irq::Ep0Data => 9,
        Irq::Ep0Status => 10,
        Irq::SetInterface => 11,
        Irq::EndpointData => 12,
        Irq::ZigbeeRadio => 13,
        Irq::SoftwarePwm => 14,
        Irq::Usb250us => 16,
        Irq::UsbReset => 17,
        Irq::Gpio => 18,
        Irq::PowerManagement => 19,
        Irq::SystemTimer => 20,
        Irq::GpioRisc0 => 21,
        Irq::GpioRisc1 => 22,
    }
}

/// The source with interrupt number `bit`, if any (15 and 23 up have none).
pub open spec fn irq_of_bit(bit: u8) -> Option<Irq> {
    if bit == 0 {
        Some(Irq::Timer0)
    } else if bit == 1 {
        Some(Irq::Timer1)
    } else if bit == 2 {
        Some(Irq::Timer2)
    } else if bit == 3 {
        Some(Irq::UsbPwrdn)
    } else if bit == 4 {
        Some(Irq::Dma)
    } else if bit == 5 {
        Some(Irq::DmaFifo)
    } else if bit == 6 {
        Some(Irq::Uart)
    } else if bit == 7 {
        Some(Irq::MixCmd)
    } else if bit == 8 {
        Some(Irq::Ep0Setup)
    } else if bit == 9 {
        Some(Irq::Ep0Data)
    } else if bit == 10 {
        Some(Irq::Ep0Status)
    } else if bit == 11 {
        Some(Irq::SetInterface)
    } else if bit == 12 {
        Some(Irq::EndpointData)
    } else if bit == 13 {
        Some(Irq::ZigbeeRadio)
    } else if bit == 14 {
        Some(Irq::SoftwarePwm)
    } else if bit == 16 {
        Some(Irq::Usb250us)
    } else if bit == 17 {
        Some(Irq::UsbReset)
    } else if bit == 18 {
        Some(Irq::Gpio)
    } else if bit == 19 {
        Some(Irq::PowerManagement)
    } else if bit == 20 {
        Some(Irq::SystemTimer)
    } else if bit == 21 {
        Some(Irq::GpioRisc0)
    } else if bit == 22 {
        Some(Irq::GpioRisc1)
    } else {
        None
    }
}

impl Irq {
    pub fn bit(self) -> (b: u8)
        ensures
            b == irq_bit(self),
            b < 23,
    {
        match self {
            Irq::Timer0 => 0,
            Irq::Timer1 => 1,
            Irq::Timer2 => 2,
            Irq::UsbPwrdn => 3,
            Irq::Dma => 4,
            Irq::DmaFifo => 5,
            Irq::Uart => 6,
            Irq::MixCmd => 7,
            Irq::Ep0Setup => 8,
            Irq::Ep0Data => 9,
            Irq::Ep0Status => 10,
            Irq::SetInterface => 11,
            Irq::EndpointData => 12,
            Irq::ZigbeeRadio => 13,
            Irq::SoftwarePwm => 14,
            Irq::Usb250us => 16,
            Irq::UsbReset => 17,
            Irq::Gpio => 18,
            Irq::PowerManagement => 19,
            Irq::SystemTimer => 20,
            Irq::GpioRisc0 => 21,
            Irq::GpioRisc1 => 22,
        }
    }

    /// The source's bit in the mask and source registers.
    pub fn mask(self) -> (m: u32)
        ensures
            m == 1u32 << (irq_bit(self) as u32),
    {
        1u32 << (self.bit() as u32)
    }

    pub fn from_bit(bit: u8) -> (r: Option<Self>)
        ensures
            r == irq_of_bit(bit),
    {
        if bit == 0 {
            Some(Irq::Timer0)
        } else if bit == 1 {
            Some(Irq::Timer1)
        } else if bit == 2 {
            Some(Irq::Timer2)
        } else if bit == 3 {
            Some(Irq::UsbPwrdn)
        } else if bit == 4 {
            Some(Irq::Dma)
        } else if bit == 5 {
            Some(Irq::DmaFifo)
        } else if bit == 6 {
            Some(Irq::Uart)
        } else if bit == 7 {
            Some(Irq::MixCmd)
        } else if bit == 8 {
            Some(Irq::Ep0Setup)
        } else if bit == 9 {
            Some(Irq::Ep0Data)
        } else if bit == 10 {
            Some(Irq::Ep0Status)
        } else if bit == 11 {
            Some(Irq::SetInterface)
        } else if bit == 12 {
            Some(Irq::EndpointData)
        } else if bit == 13 {
            Some(Irq::ZigbeeRadio)
        } else if bit == 14 {
            Some(Irq::SoftwarePwm)
        } else if bit == 16 {
            Some(Irq::Usb250us)
        } else if bit == 17 {
            Some(Irq::UsbReset)
        } else if bit == 18 {
            Some(Irq::Gpio)
        } else if bit == 19 {
            Some(Irq::PowerManagement)
        } else if bit == 20 {
            Some(Irq::SystemTimer)
        } else if bit == 21 {
            Some(Irq::GpioRisc0)
        } else if bit == 22 {
            Some(Irq::GpioRisc1)
        } else {
            None
        }
    }
}

/// Interrupt numbers and sources correspond one to one: the source of a
/// source's number is that source, and a number that names a source is
/// that source's number.
pub proof fn lemma_irq_bit_round_trip(irq: Irq, bit: u8)
    ensures
        irq_of_bit(irq_bit(irq)) == Some(irq),
        irq_of_bit(bit) == Some(irq) ==> irq_bit(irq) == bit,
{
}

/// Pending core and radio interrupts, as read together.
#[derive(Clone, Copy, Debug, PartialEq, Eq, Structural)]
pub struct Pending8258 {
    pub core: u32,
    pub rf: u16,
}

impl Pending8258 {
    pub fn is_empty(self) -> (b: bool)
        ensures
            b == (self.core == 0 && self.rf == 0),
    {
        self.core == 0 && self.rf == 0
    }

    pub fn has_irq(self, irq: Irq) -> (b: bool)
        ensures
            b == ((self.core & (1u32 << (irq_bit(irq) as u32))) != 0),
    {
        (self.core & irq.mask()) != 0
    }

    pub fn has_rf(self, mask: u16) -> (b: bool)
        ensures
            b == ((self.rf & mask) != 0),
    {
        (self.rf & mask) != 0
    }
}

/// The pending interrupts from the source and mask registers.
pub fn snapshot_pending_8258(source: u32, mask: u32, rf_source: u16, rf_mask: u16) -> (p: Pending8258)
    ensures
        p == (Pending8258 { core: source & mask, rf: rf_source & rf_mask }),
{
    Pending8258 { core: masked_irq_source(source, mask), rf: masked_rf_irq_source(rf_source, rf_mask) }
}

pub fn masked_irq_source(source: u32, mask: u32) -> (m: u32)
    ensures
        m == source & mask,
{
    source & mask
}

pub fn masked_rf_irq_source(source: u16, mask: u16) -> (m: u16)
    ensures
        m == source & mask,
{
    source & mask
}

/// Whether `irq` is set in a value read from the source register.
pub fn is_pending(irq: Irq, source: u32) -> (b: bool)
    ensures
        b == ((source & (1u32 << (irq_bit(irq) as u32))) != 0),
{
    (source & irq.mask()) != 0
}

/// Turns the global interrupt enable on.
pub fn enable(ops: &mut Vec<RegOp>)
    ensures
        final(ops)@ == old(ops)@.push(RegOp::Write8 { addr: REG_IRQ_EN, value: 1 }),
{
    ops.push(RegOp::Write8 { addr: REG_IRQ_EN, value: 1 });
}

/// Turns the global interrupt enable off.
pub fn disable(ops: &mut Vec<RegOp>)
    ensures
        final(ops)@ == old(ops)@.push(RegOp::Write8 { addr: REG_IRQ_EN, value: 0 }),
{
    ops.push(RegOp::Write8 { addr: REG_IRQ_EN, value: 0 });
}

/// Restores the global interrupt enable saved by an earlier read.
pub fn restore(ops: &mut Vec<RegOp>, enabled: bool)
    ensures
        final(ops)@ == old(ops)@.push(RegOp::Write8 { addr: REG_IRQ_EN, value: if enabled { 1u8 } else { 0u8 } }),
{
    ops.push(RegOp::Write8 { addr: REG_IRQ_EN, value: if enabled { 1 } else { 0 } });
}

pub fn set_mask(ops: &mut Vec<RegOp>, mask: u32)
    ensures
        final(ops)@ == old(ops)@.push(RegOp::Modify32 { addr: REG_IRQ_MASK, clear: 0, set: mask }),
{
    ops.push(RegOp::Modify32 { addr: REG_IRQ_MASK, clear: 0, set: mask });
}

pub fn clear_mask(ops: &mut Vec<RegOp>, mask: u32)
    ensures
        final(ops)@ == old(ops)@.push(RegOp::Modify32 { addr: REG_IRQ_MASK, clear: mask, set: 0 }),
{
    ops.push(RegOp::Modify32 { addr: REG_IRQ_MASK, clear: mask, set: 0 });
}

pub fn clear_irq_source(ops: &mut Vec<RegOp>, mask: u32)
    ensures
        final(ops)@ == old(ops)@.push(RegOp::Write32 { addr: REG_IRQ_SRC, value: mask }),
{
    ops.push(RegOp::Write32 { addr: REG_IRQ_SRC, value: mask });
}

pub fn clear_all_irq_sources(ops: &mut Vec<RegOp>)
    ensures
        final(ops)@ == old(ops)@.push(RegOp::Write32 { addr: REG_IRQ_SRC, value: ALL_IRQS }),
{
    clear_irq_source(ops, ALL_IRQS);
}

pub fn enable_irq(ops: &mut Vec<RegOp>, irq: Irq)
    ensures
        final(ops)@ == old(ops)@.push(RegOp::Modify32 { addr: REG_IRQ_MASK, clear: 0, set: 1u32 << (irq_bit(irq) as u32) }),
{
    set_mask(ops, irq.mask());
}

pub fn disable_irq(ops: &mut Vec<RegOp>, irq: Irq)
    ensures
        final(ops)@ == old(ops)@.push(RegOp::Modify32 { addr: REG_IRQ_MASK, clear: 1u32 << (irq_bit(irq) as u32), set: 0 }),
{
    clear_mask(ops, irq.mask());
}

pub fn clear_irq(ops: &mut Vec<RegOp>, irq: Irq)
    ensures
        final(ops)@ == old(ops)@.push(RegOp::Write32 { addr: REG_IRQ_SRC, value: 1u32 << (irq_bit(irq) as u32) }),
{
    clear_irq_source(ops, irq.mask());
}

/// The writes that acknowledge `irq`: its source bit, and for the three
/// timers also their status bit.
pub open spec fn acknowledge_ops(irq: Irq) -> Seq<RegOp> {
    let src = RegOp::Write32 { addr: REG_IRQ_SRC, value: 1u32 << (irq_bit(irq) as u32) };
    match irq {
        Irq::Timer0 => seq![src, RegOp::Write8 { addr: REG_TMR_STA, value: 0x01 }],
        Irq::Timer1 => seq![src, RegOp::Write8 { addr: REG_TMR_STA, value: 0x02 }],
        Irq::Timer2 => seq![src, RegOp::Write8 { addr: REG_TMR_STA, value: 0x04 }],
        _ => seq![src],
    }
}

pub fn acknowledge_irq(ops: &mut Vec<RegOp>, irq: Irq)
    ensures
        final(ops)@ == old(ops)@ + acknowledge_ops(irq),
{
    let ghost start = ops@;
    ops.push(RegOp::Write32 { addr: REG_IRQ_SRC, value: irq.mask() });
    match irq {
        Irq::Timer0 => ops.push(RegOp::Write8 { addr: REG_TMR_STA, value: 0x01 }),
        Irq::Timer1 => ops.push(RegOp::Write8 { addr: REG_TMR_STA, value: 0x02 }),
        Irq::Timer2 => ops.push(RegOp::Write8 { addr: REG_TMR_STA, value: 0x04 }),
        _ => {},
    }
    assert(ops@ =~= start + acknowledge_ops(irq));
}

pub fn rf_set_mask(ops: &mut Vec<RegOp>, mask: u16)
    ensures
        final(ops)@ == old(ops)@.push(RegOp::Modify16 { addr: REG_RF_IRQ_MASK, clear: 0, set: mask }),
{
    ops.push(RegOp::Modify16 { addr: REG_RF_IRQ_MASK, clear: 0, set: mask });
}

pub fn rf_clear_mask(ops: &mut Vec<RegOp>, mask: u16)
    ensures
        final(ops)@ == old(ops)@.push(RegOp::Modify16 { addr: REG_RF_IRQ_MASK, clear: mask, set: 0 }),
{
    ops.push(RegOp::Modify16 { addr: REG_RF_IRQ_MASK, clear: mask, set: 0 });
}

pub fn rf_clear_irq_source(ops: &mut Vec<RegOp>, mask: u16)
    ensures
        final(ops)@ == old(ops)@.push(RegOp::Write16 { addr: REG_RF_IRQ_STATUS, value: mask }),
{
    ops.push(RegOp::Write16 { addr: REG_RF_IRQ_STATUS, value: mask });
}

pub fn acknowledge_rf_irq(ops: &mut Vec<RegOp>, mask: u16)
    ensures
        final(ops)@ == old(ops)@.push(RegOp::Write16 { addr: REG_RF_IRQ_STATUS, value: mask }),
{
    rf_clear_irq_source(ops, mask);
}

/// Whether `addr` lies in the RAM code section `[start, end)`.
pub fn in_ram_code(addr: usize, start: usize, end: usize) -> (b: bool)
    ensures
        b == (start <= addr && addr < end),
{
    addr >= start && addr < end
}

/// One step of interrupt dispatch.
#[derive(Clone, Copy, Debug, PartialEq, Eq, Structural)]
pub enum DispatchStep {
    /// Call the handler at `handler` with `arg`.
    Call { handler: usize, arg: u32 },
    /// Acknowledge `irq`.
    Acknowledge { irq: Irq },
    /// Clear the source bits `mask` of a number with no source.
    ClearSource { mask: u32 },
    /// Read the masked radio interrupts and dispatch them.
    DispatchRf,
}

/// A handler placed in RAM code, by its address: one for a core interrupt
/// number, the global handler, a radio interrupt bit, or a callback.
#[derive(Clone, Copy, Debug, PartialEq, Eq, Structural)]
pub struct RamIrqHandler(usize);

#[derive(Clone, Copy, Debug, PartialEq, Eq, Structural)]
pub struct RamGlobalIrqHandler(usize);

#[derive(Clone, Copy, Debug, PartialEq, Eq, Structural)]
pub struct RamRfIrqHandler(usize);

#[derive(Clone, Copy, Debug, PartialEq, Eq, Structural)]
pub struct RamVoidHandler(usize);

impl RamIrqHandler {
    pub closed spec fn addr(self) -> usize {
        self.0
    }

    pub fn new(addr: usize) -> (h: Self)
        ensures
            h.addr() == addr,
    {
        RamIrqHandler(addr)
    }

    pub fn get(self) -> (a: usize)
        ensures
            a == self.addr(),
    {
        self.0
    }
}

impl RamGlobalIrqHandler {
    pub closed spec fn addr(self) -> usize {
        self.0
    }

    pub fn new(addr: usize) -> (h: Self)
        ensures
            h.addr() == addr,
    {
        RamGlobalIrqHandler(addr)
    }

    pub fn get(self) -> (a: usize)
        ensures
            a == self.addr(),
    {
        self.0
    }
}

impl RamRfIrqHandler {
    pub closed spec fn addr(self) -> usize {
        self.0
    }

    pub fn new(addr: usize) -> (h: Self)
        ensures
            h.addr() == addr,
    {
        RamRfIrqHandler(addr)
    }

    pub fn get(self) -> (a: usize)
        ensures
            a == self.addr(),
    {
        self.0
    }
}

impl RamVoidHandler {
    pub closed spec fn addr(self) -> usize {
        self.0
    }

    pub fn new(addr: usize) -> (h: Self)
        ensures
            h.addr() == addr,
    {
        RamVoidHandler(addr)
    }

    pub fn get(self) -> (a: usize)
        ensures
            a == self.addr(),
    {
        self.0
    }
}

/// One step of radio interrupt dispatch.
#[derive(Clone, Copy, Debug, PartialEq, Eq, Structural)]
pub enum RfDispatchStep {
    Call { handler: usize, mask: u16 },
    Acknowledge { mask: u16 },
}

/// What the interrupt entry does.
#[derive(Clone, Debug, PartialEq, Eq)]
pub enum IrqEntry {
    /// A global handler takes every interrupt.
    Global { handler: usize },
    /// The pending interrupts are dispatched in these steps.
    Dispatch { steps: Vec<DispatchStep> },
}

/// The handlers of the 32 core interrupt numbers, the 16 radio interrupt
/// bits, and an optional global handler.
pub struct IrqHandlers {
    core: Vec<Option<usize>>,
    rf: Vec<Option<usize>>,
    global: Option<usize>,
}

/// The handler calls for the pending bits below `k`, lowest first.
pub open spec fn core_calls(slots: Seq<Option<usize>>, pending: u32, k: nat) -> Seq<DispatchStep>
    decreases k,
{
    if k == 0 {
        Seq::empty()
    } else {
        let b = (k - 1) as u32;
        core_calls(slots, pending, (k - 1) as nat) + (if (pending & (1u32 << b)) != 0 && slots[b as int] is Some {
            seq![DispatchStep::Call { handler: slots[b as int]->0, arg: 1u32 << b }]
        } else {
            Seq::empty()
        })
    }
}

proof fn lemma_core_calls_has(slots: Seq<Option<usize>>, pending: u32, b: u32, h: usize, k: nat)
    requires
        b < k,
        k <= 32,
        slots.len() == 32,
        slots[b as int] == Some(h),
        pending & (1u32 << b) != 0,
    ensures
        core_calls(slots, pending, k).contains(DispatchStep::Call { handler: h, arg: 1u32 << b }),
    decreases k,
{
    let prev = core_calls(slots, pending, (k - 1) as nat);
    let c = DispatchStep::Call { handler: h, arg: 1u32 << b };
    if b == k - 1 {
        assert(core_calls(slots, pending, k)[prev.len() as int] == c);
    } else {
        lemma_core_calls_has(slots, pending, b, h, (k - 1) as nat);
        let i = choose|i: int| 0 <= i < prev.len() && prev[i] == c;
        assert(core_calls(slots, pending, k)[i] == c);
    }
}

proof fn lemma_core_calls_only(slots: Seq<Option<usize>>, pending: u32, k: nat)
    requires
        k <= 32,
        slots.len() == 32,
    ensures
        forall|i: int|
            0 <= i < core_calls(slots, pending, k).len() ==> (#[trigger] core_calls(slots, pending, k)[i] matches
                DispatchStep::Call { handler, arg } && exists|b: u32|
                b < k && arg == 1u32 << b && pending & arg != 0 && slots[b as int] == Some(handler)),
    decreases k,
{
    if k > 0 {
        lemma_core_calls_only(slots, pending, (k - 1) as nat);
        let prev = core_calls(slots, pending, (k - 1) as nat);
        let all = core_calls(slots, pending, k);
        let b = (k - 1) as u32;
        assert forall|i: int| 0 <= i < all.len() implies (#[trigger] all[i] matches DispatchStep::Call {
            handler,
            arg,
        } && exists|c: u32| c < k && arg == 1u32 << c && pending & arg != 0 && slots[c as int] == Some(handler)) by {
            if i < prev.len() {
                assert(all[i] == prev[i]);
            } else {
                assert(all[i] == DispatchStep::Call { handler: slots[b as int]->0, arg: 1u32 << b });
                assert(slots[b as int] == Some(slots[b as int]->0));
            }
        }
    }
}

/// Dispatch calls exactly the registered handlers of pending numbers: once
/// `handler` is registered for `irq`, a dispatch with `irq` pending calls
/// it with the interrupt's bit, and every call a dispatch makes is to the
/// handler registered for a pending number, with that number's bit.
pub proof fn lemma_dispatch_calls_registered(slots: Seq<Option<usize>>, irq: Irq, handler: usize, pending: u32)
    requires
        slots.len() == 32,
    ensures
        pending & (1u32 << (irq_bit(irq) as u32)) != 0 ==> core_calls(
            slots.update(irq_bit(irq) as int, Some(handler)),
            pending,
            32,
        ).contains(DispatchStep::Call { handler, arg: 1u32 << (irq_bit(irq) as u32) }),
        forall|i: int|
            0 <= i < core_calls(slots, pending, 32).len() ==> (#[trigger] core_calls(slots, pending, 32)[i] matches
                DispatchStep::Call { handler: h, arg } && exists|b: u32|
                b < 32 && arg == 1u32 << b && pending & arg != 0 && slots[b as int] == Some(h)),
{
    let b = irq_bit(irq) as u32;
    if pending & (1u32 << b) != 0 {
        lemma_core_calls_has(slots.update(b as int, Some(handler)), pending, b, handler, 32);
    }
    lemma_core_calls_only(slots, pending, 32);
}

/// The dispatch steps of one pending core bit on the 8258: the two timers
/// that need no acknowledgement are called directly; the radio interrupt
/// first dispatches the radio bits; others are acknowledged then called;
/// numbers without a source are only cleared.
pub open spec fn steps_8258_bit(slots: Seq<Option<usize>>, b: u32) -> Seq<DispatchStep> {
    let call = if slots[b as int] is Some {
        seq![DispatchStep::Call { handler: slots[b as int]->0, arg: 1u32 << b }]
    } else {
        Seq::empty()
    };
    match irq_of_bit(b as u8) {
        None => seq![DispatchStep::ClearSource { mask: 1u32 << b }],
        Some(irq) => if irq == Irq::Timer0 || irq == Irq::SystemTimer {
            call
        } else if irq == Irq::ZigbeeRadio {
            seq![DispatchStep::DispatchRf, DispatchStep::Acknowledge { irq }] + call
        } else {
            seq![DispatchStep::Acknowledge { irq }] + call
        },
    }
}

pub open spec fn steps_8258(slots: Seq<Option<usize>>, pending: u32, k: nat) -> Seq<DispatchStep>
    decreases k,
{
    if k == 0 {
        Seq::empty()
    } else {
        let b = (k - 1) as u32;
        steps_8258(slots, pending, (k - 1) as nat) + (if (pending & (1u32 << b)) != 0 {
            steps_8258_bit(slots, b)
        } else {
            Seq::empty()
        })
    }
}

/// The radio handler calls and acknowledgements for the pending bits below
/// `k`, lowest first.
pub open spec fn rf_steps(slots: Seq<Option<usize>>, pending: u16, k: nat) -> Seq<RfDispatchStep>
    decreases k,
{
    if k == 0 {
        Seq::empty()
    } else {
        let b = (k - 1) as u16;
        rf_steps(slots, pending, (k - 1) as nat) + (if (pending & (1u16 << b)) != 0 {
            (if slots[b as int] is Some {
                seq![RfDispatchStep::Call { handler: slots[b as int]->0, mask: 1u16 << b }]
            } else {
                Seq::empty()
            }) + seq![RfDispatchStep::Acknowledge { mask: 1u16 << b }]
        } else {
            Seq::empty()
        })
    }
}

/// The radio slots after setting the bits of `mask` (below `k`) to `h`.
pub open spec fn rf_slots_set(slots: Seq<Option<usize>>, mask: u16, h: Option<usize>, k: nat) -> Seq<Option<usize>>
    decreases k,
{
    if k == 0 {
        slots
    } else {
        let b = (k - 1) as u16;
        let prev = rf_slots_set(slots, mask, h, (k - 1) as nat);
        if (mask & (1u16 << b)) != 0 {
            prev.update(b as int, h)
        } else {
            prev
        }
    }
}

impl IrqHandlers {
    pub closed spec fn core_slots(&self) -> Seq<Option<usize>> {
        self.core@
    }

    pub closed spec fn rf_slots(&self) -> Seq<Option<usize>> {
        self.rf@
    }

    pub closed spec fn global_slot(&self) -> Option<usize> {
        self.global
    }

    pub open spec fn wf(&self) -> bool {
        self.core_slots().len() == 32 && self.rf_slots().len() == 16
    }

    /// A table with no handler.
    pub fn new() -> (t: Self)
        ensures
            t.wf(),
            t.core_slots() == Seq::new(32, |i: int| None::<usize>),
            t.rf_slots() == Seq::new(16, |i: int| None::<usize>),
            t.global_slot() is None,
    {
        let mut core: Vec<Option<usize>> = Vec::new();
        let mut i: usize = 0;
        while i < 32
            invariant
                i <= 32,
                core@ == Seq::new(i as nat, |j: int| None::<usize>),
            decreases 32 - i,
        {
            core.push(None);
            i = i + 1;
            assert(core@ =~= Seq::new(i as nat, |j: int| None::<usize>));
        }
        let mut rf: Vec<Option<usize>> = Vec::new();
        let mut j: usize = 0;
        while j < 16
            invariant
                j <= 16,
                rf@ == Seq::new(j as nat, |k: int| None::<usize>),
            decreases 16 - j,
        {
            rf.push(None);
            j = j + 1;
            assert(rf@ =~= Seq::new(j as nat, |k: int| None::<usize>));
        }
        IrqHandlers { core, rf, global: None }
    }

    /// Installs the handler at `handler` (which must lie in the RAM code
    /// section `[ram_start, ram_end)`) for interrupt number `bit`.
    pub fn register_handler(&mut self, bit: u8, handler: RamIrqHandler, ram_start: usize, ram_end: usize)
        requires
            old(self).wf(),
            bit < 32,
            ram_start <= handler.addr() < ram_end,
        ensures
            final(self).wf(),
            final(self).core_slots() == old(self).core_slots().update(bit as int, Some(handler.addr())),
            final(self).rf_slots() == old(self).rf_slots(),
            final(self).global_slot() == old(self).global_slot(),
    {
        self.core.set(bit as usize, Some(handler.get()));
    }

    pub fn unregister_handler(&mut self, bit: u8)
        requires
            old(self).wf(),
            bit < 32,
        ensures
            final(self).wf(),
            final(self).core_slots() == old(self).core_slots().update(bit as int, None),
            final(self).rf_slots() == old(self).rf_slots(),
            final(self).global_slot() == old(self).global_slot(),
    {
        self.core.set(bit as usize, None);
    }

    pub fn register_irq_handler(&mut self, irq: Irq, handler: RamIrqHandler, ram_start: usize, ram_end: usize)
        requires
            old(self).wf(),
            ram_start <= handler.addr() < ram_end,
        ensures
            final(self).wf(),
            final(self).core_slots() == old(self).core_slots().update(irq_bit(irq) as int, Some(handler.addr())),
            final(self).rf_slots() == old(self).rf_slots(),
            final(self).global_slot() == old(self).global_slot(),
    {
        self.register_handler(irq.bit(), handler, ram_start, ram_end);
    }

    pub fn unregister_irq_handler(&mut self, irq: Irq)
        requires
            old(self).wf(),
        ensures
            final(self).wf(),
            final(self).core_slots() == old(self).core_slots().update(irq_bit(irq) as int, None),
            final(self).rf_slots() == old(self).rf_slots(),
            final(self).global_slot() == old(self).global_slot(),
    {
        self.unregister_handler(irq.bit());
    }

    /// Removes every core and radio handler (the global one stays).
    pub fn clear_handlers(&mut self)
        requires
            old(self).wf(),
        ensures
            final(self).wf(),
            final(self).core_slots() == Seq::new(32, |i: int| None::<usize>),
            final(self).rf_slots() == Seq::new(16, |i: int| None::<usize>),
            final(self).global_slot() == old(self).global_slot(),
    {
        let ghost rf0 = self.rf@;
        let ghost g0 = self.global;
        let mut i: usize = 0;
        while i < 32
            invariant
                i <= 32,
                self.core@.len() == 32,
                self.rf@ == rf0,
                rf0.len() == 16,
                self.global == g0,
                forall|j: int| 0 <= j < i ==> self.core@[j] is None,
            decreases 32 - i,
        {
            self.core.set(i, None);
            i = i + 1;
        }
        assert(self.core@ =~= Seq::new(32, |i: int| None::<usize>));
        let ghost core1 = self.core@;
        let mut k: usize = 0;
        while k < 16
            invariant
                k <= 16,
                self.rf@.len() == 16,
                self.core@ == core1,
                core1 == Seq::new(32, |i: int| None::<usize>),
                self.global == g0,
                forall|j: int| 0 <= j < k ==> self.rf@[j] is None,
            decreases 16 - k,
        {
            self.rf.set(k, None);
            k = k + 1;
        }
        assert(self.core@ =~= Seq::new(32, |i: int| None::<usize>));
        assert(self.rf@ =~= Seq::new(16, |i: int| None::<usize>));
    }

    pub fn register_global_irq_handler(&mut self, handler: RamGlobalIrqHandler, ram_start: usize, ram_end: usize)
        requires
            ram_start <= handler.addr() < ram_end,
        ensures
            final(self).global_slot() == Some(handler.addr()),
            final(self).core_slots() == old(self).core_slots(),
            final(self).rf_slots() == old(self).rf_slots(),
    {
        self.global = Some(handler.get());
    }

    pub fn unregister_global_irq_handler(&mut self)
        ensures
            final(self).global_slot() is None,
            final(self).core_slots() == old(self).core_slots(),
            final(self).rf_slots() == old(self).rf_slots(),
    {
        self.global = None;
    }

    fn set_rf_bits(&mut self, mask: u16, h: Option<usize>)
        requires
            old(self).wf(),
        ensures
            final(self).wf(),
            final(self).rf_slots() == rf_slots_set(old(self).rf_slots(), mask, h, 16),
            final(self).core_slots() == old(self).core_slots(),
            final(self).global_slot() == old(self).global_slot(),
    {
        let ghost start = self.rf@;
        let ghost core0 = self.core@;
        let ghost g0 = self.global;
        let mut b: u16 = 0;
        while b < 16
            invariant
                b <= 16,
                self.rf@.len() == 16,
                self.rf@ == rf_slots_set(start, mask, h, b as nat),
                start.len() == 16,
                self.core@ == core0,
                core0.len() == 32,
                self.global == g0,
            decreases 16 - b,
        {
            proof {
                lemma_rf_slots_set_len(start, mask, h, b as nat);
            }
            if (mask & (1u16 << b)) != 0 {
                self.rf.set(b as usize, h);
            }
            b = b + 1;
        }
    }

    /// Installs the handler at `handler` for every radio interrupt bit of
    /// `mask`.
    pub fn register_rf_irq_handler(&mut self, mask: u16, handler: RamRfIrqHandler, ram_start: usize, ram_end: usize)
        requires
            old(self).wf(),
            ram_start <= handler.addr() < ram_end,
        ensures
            final(self).wf(),
            final(self).rf_slots() == rf_slots_set(old(self).rf_slots(), mask, Some(handler.addr()), 16),
            final(self).core_slots() == old(self).core_slots(),
            final(self).global_slot() == old(self).global_slot(),
    {
        self.set_rf_bits(mask, Some(handler.get()));
    }

    pub fn unregister_rf_irq_handler(&mut self, mask: u16)
        requires
            old(self).wf(),
        ensures
            final(self).wf(),
            final(self).rf_slots() == rf_slots_set(old(self).rf_slots(), mask, None, 16),
            final(self).core_slots() == old(self).core_slots(),
            final(self).global_slot() == old(self).global_slot(),
    {
        self.set_rf_bits(mask, None);
    }

    /// The handler call for interrupt number `bit`, if one is installed.
    pub fn dispatch_one(&self, bit: u8) -> (c: Option<DispatchStep>)
        requires
            self.wf(),
            bit < 32,
        ensures
            c == (if self.core_slots()[bit as int] is Some {
                Some(DispatchStep::Call { handler: self.core_slots()[bit as int]->0, arg: 1u32 << (bit as u32) })
            } else {
                None::<DispatchStep>
            }),
    {
        match self.core[bit as usize] {
            Some(h) => Some(DispatchStep::Call { handler: h, arg: 1u32 << (bit as u32) }),
            None => None,
        }
    }

    /// The handler calls for the pending interrupt numbers, lowest first.
    pub fn dispatch_pending(&self, pending: u32) -> (steps: Vec<DispatchStep>)
        requires
            self.wf(),
        ensures
            steps@ == core_calls(self.core_slots(), pending, 32),
    {
        let mut steps: Vec<DispatchStep> = Vec::new();
        let mut b: u32 = 0;
        while b < 32
            invariant
                b <= 32,
                self.wf(),
                steps@ == core_calls(self.core_slots(), pending, b as nat),
            decreases 32 - b,
        {
            if (pending & (1u32 << b)) != 0 {
                match self.core[b as usize] {
                    Some(h) => steps.push(DispatchStep::Call { handler: h, arg: 1u32 << b }),
                    None => {},
                }
            }
            b = b + 1;
        }
        steps
    }

    /// The dispatch steps for the pending interrupts of the 8258, lowest
    /// number first.
    pub fn dispatch_pending_8258(&self, pending: Pending8258) -> (steps: Vec<DispatchStep>)
        requires
            self.wf(),
        ensures
            steps@ == steps_8258(self.core_slots(), pending.core, 32),
    {
        let mut steps: Vec<DispatchStep> = Vec::new();
        let mut b: u32 = 0;
        while b < 32
            invariant
                b <= 32,
                self.wf(),
                steps@ == steps_8258(self.core_slots(), pending.core, b as nat),
            decreases 32 - b,
        {
            if (pending.core & (1u32 << b)) != 0 {
                let ghost before = steps@;
                let call = self.dispatch_one(b as u8);
                match Irq::from_bit(b as u8) {
                    None => {
                        steps.push(DispatchStep::ClearSource { mask: 1u32 << b });
                    },
                    Some(irq) => {
                        if irq == Irq::Timer0 || irq == Irq::SystemTimer {
                        } else if irq == Irq::ZigbeeRadio {
                            steps.push(DispatchStep::DispatchRf);
                            steps.push(DispatchStep::Acknowledge { irq });
                        } else {
                            steps.push(DispatchStep::Acknowledge { irq });
                        }
                        if let Some(c) = call {
                            steps.push(c);
                        }
                    },
                }
                assert(steps@ =~= before + steps_8258_bit(self.core_slots(), b));
            }
            b = b + 1;
        }
        steps
    }

    /// The radio handler calls and acknowledgements for `pending`, lowest
    /// bit first.
    pub fn dispatch_rf_pending(&self, pending: u16) -> (steps: Vec<RfDispatchStep>)
        requires
            self.wf(),
        ensures
            steps@ == rf_steps(self.rf_slots(), pending, 16),
    {
        let mut steps: Vec<RfDispatchStep> = Vec::new();
        let mut b: u16 = 0;
        while b < 16
            invariant
                b <= 16,
                self.wf(),
                steps@ == rf_steps(self.rf_slots(), pending, b as nat),
            decreases 16 - b,
        {
            let mask = 1u16 << b;
            if (pending & mask) != 0 {
                let ghost before = steps@;
                match self.rf[b as usize] {
                    Some(h) => steps.push(RfDispatchStep::Call { handler: h, mask }),
                    None => {},
                }
                steps.push(RfDispatchStep::Acknowledge { mask });
                assert(steps@ =~= before + (if self.rf_slots()[b as int] is Some {
                    seq![RfDispatchStep::Call { handler: self.rf_slots()[b as int]->0, mask: 1u16 << b }]
                } else {
                    Seq::empty()
                }) + seq![RfDispatchStep::Acknowledge { mask: 1u16 << b }]);
            }
            b = b + 1;
        }
        steps
    }

    /// The generic interrupt entry: the global handler if one is installed,
    /// else the dispatch of the enabled pending numbers (`source & mask`).
    pub fn irq_handler(&self, source: u32, mask: u32) -> (e: IrqEntry)
        requires
            self.wf(),
        ensures
            self.global_slot() matches Some(h) ==> e == (IrqEntry::Global { handler: h }),
            self.global_slot() is None ==> (e matches IrqEntry::Dispatch { steps } && steps@ == core_calls(
                self.core_slots(),
                source & mask,
                32,
            )),
    {
        match self.global {
            Some(h) => IrqEntry::Global { handler: h },
            None => IrqEntry::Dispatch { steps: self.dispatch_pending(source & mask) },
        }
    }

    /// The interrupt entry: the global handler if one is installed, else
    /// the dispatch of `pending`.
    pub fn irq_handler_rust(&self, pending: Pending8258) -> (e: IrqEntry)
        requires
            self.wf(),
        ensures
            self.global_slot() matches Some(h) ==> e == (IrqEntry::Global { handler: h }),
            self.global_slot() is None ==> (e matches IrqEntry::Dispatch { steps } && steps@ == steps_8258(
                self.core_slots(),
                pending.core,
                32,
            )),
    {
        match self.global {
            Some(h) => IrqEntry::Global { handler: h },
            None => IrqEntry::Dispatch { steps: self.dispatch_pending_8258(pending) },
        }
    }
}

proof fn lemma_rf_slots_set_len(slots: Seq<Option<usize>>, mask: u16, h: Option<usize>, k: nat)
    requires
        k <= slots.len(),
    ensures
        rf_slots_set(slots, mask, h, k).len() == slots.len(),
    decreases k,
{
    if k > 0 {
        lemma_rf_slots_set_len(slots, mask, h, (k - 1) as nat);
    }
}

} // verus!
