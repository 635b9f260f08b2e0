//! The UART: baud rate search, line configuration, pad routing and the
//! four-slot data window.

use vstd::prelude::*;

use crate::analog::Pull;
use crate::gpio::{
    decode_checked, function_error, function_ops, input_enable_op, mask_bit, port_reg, pull_ops,
    set_function_raw, set_input_enabled_raw, set_output_enabled_raw, set_pull_resistor_raw, PinFunction,
    RawPin,
};
use crate::mmio::{bits8_op, RegOp};

verus! {

pub const RESET_BASE: u32 = 0x0080_0060;
pub const UART_BASE: u32 = 0x0080_0090;

/// Register offsets from `UART_BASE`.
pub const UART_CLK_DIV: u32 = 0x04;
pub const UART_CTRL0: u32 = 0x06;
pub const UART_CTRL1: u32 = 0x07;
pub const UART_CTRL2: u32 = 0x08;
pub const UART_RX_TIMEOUT0: u32 = 0x0a;
pub const UART_RX_TIMEOUT1: u32 = 0x0b;
pub const UART_BUF_CNT: u32 = 0x0c;
pub const UART_STATUS: u32 = 0x0e;

/// The address of the UART register at offset `off`.
pub open spec fn uart_reg_spec(off: u32) -> u32 {
    (UART_BASE + off) as u32
}

#[verifier::when_used_as_spec(uart_reg_spec)]
pub fn uart_reg(off: u32) -> (a: u32)
    requires
        off < 0x100,
    ensures
        a == uart_reg_spec(off),
{
    UART_BASE + off
}

#[derive(Clone, Copy, Debug, PartialEq, Eq, Structural)]
pub enum Parity {
    Disabled,
    Even,
    Odd,
}

#[derive(Clone, Copy, Debug, PartialEq, Eq, Structural)]
pub enum StopBits {
    One,
    OneAndHalf,
    Two,
}

/// The stop bit field of the control register.
pub open spec fn stop_bits_code(s: StopBits) -> u8 {
    match s {
        StopBits::One => 0x00,
        StopBits::OneAndHalf => 0x10,
        StopBits::Two => 0x20,
    }
}

impl StopBits {
    pub fn code(self) -> (c: u8)
        ensures
            c == stop_bits_code(self),
    {
        match self {
            StopBits::One => 0x00,
            StopBits::OneAndHalf => 0x10,
            StopBits::Two => 0x20,
        }
    }
}

#[derive(Clone, Copy, Debug, PartialEq, Eq, Structural)]
pub struct Config {
    pub baudrate: u32,
    pub parity: Parity,
    pub stop_bits: StopBits,
}

impl Config {
    /// `baudrate` with no parity and one stop bit.
    pub fn new(baudrate: u32) -> (c: Self)
        ensures
            c == (Config { baudrate, parity: Parity::Disabled, stop_bits: StopBits::One }),
    {
        Config { baudrate, parity: Parity::Disabled, stop_bits: StopBits::One }
    }

    pub fn parity(self, parity: Parity) -> (c: Self)
        ensures
            c == (Config { parity, ..self }),
    {
        Config { parity, ..self }
    }

    pub fn stop_bits(self, stop_bits: StopBits) -> (c: Self)
        ensures
            c == (Config { stop_bits, ..self }),
    {
        Config { stop_bits, ..self }
    }
}

/// The pads that can carry TX.
#[derive(Clone, Copy, Debug, PartialEq, Eq, Structural)]
pub enum TxPin {
    Pa2,
    Pb1,
    Pc2,
    Pd0,
    Pd3,
    Pd7,
}

/// The pads that can carry RX.
#[derive(Clone, Copy, Debug, PartialEq, Eq, Structural)]
pub enum RxPin {
    Pa0,
    Pb0,
    Pb7,
    Pc3,
    Pc5,
    Pd6,
}

pub open spec fn tx_code(p: TxPin) -> u16 {
    match p {
        TxPin::Pa2 => 0x0004,
        TxPin::Pb1 => 0x0102,
        TxPin::Pc2 => 0x0204,
        TxPin::Pd0 => 0x0301,
        TxPin::Pd3 => 0x0308,
        TxPin::Pd7 => 0x0380,
    }
}

pub open spec fn rx_code(p: RxPin) -> u16 {
    match p {
        RxPin::Pa0 => 0x0001,
        RxPin::Pb0 => 0x0101,
        RxPin::Pb7 => 0x0180,
        RxPin::Pc3 => 0x0208,
        RxPin::Pc5 => 0x0220,
        RxPin::Pd6 => 0x0340,
    }
}

/// The raw pin of a pad code that names an existing pad.
fn raw_of(code: u16) -> (r: RawPin)
    requires
        decode_checked(code) is Some,
    ensures
        r.value() == code,
{
    match RawPin::try_from_u16(code) {
        Ok(p) => p,
        Err(_) => {
            proof {
                assert(false);
            }
            RawPin::from_parts(0, 0)
        },
    }
}

impl TxPin {
    pub fn raw(self) -> (r: u16)
        ensures
            r == tx_code(self),
    {
        match self {
            TxPin::Pa2 => 0x0004,
            TxPin::Pb1 => 0x0102,
            TxPin::Pc2 => 0x0204,
            TxPin::Pd0 => 0x0301,
            TxPin::Pd3 => 0x0308,
            TxPin::Pd7 => 0x0380,
        }
    }

    pub fn raw_pin(self) -> (r: RawPin)
        ensures
            r.value() == tx_code(self),
            decode_checked(tx_code(self)) is Some,
    {
        raw_of(self.raw())
    }
}

impl RxPin {
    pub fn raw(self) -> (r: u16)
        ensures
            r == rx_code(self),
    {
        match self {
            RxPin::Pa0 => 0x0001,
            RxPin::Pb0 => 0x0101,
            RxPin::Pb7 => 0x0180,
            RxPin::Pc3 => 0x0208,
            RxPin::Pc5 => 0x0220,
            RxPin::Pd6 => 0x0340,
        }
    }

    pub fn raw_pin(self) -> (r: RawPin)
        ensures
            r.value() == rx_code(self),
            decode_checked(rx_code(self)) is Some,
    {
        raw_of(self.raw())
    }
}

#[derive(Clone, Copy, Debug, PartialEq, Eq, Structural)]
pub struct Pins {
    pub tx: TxPin,
    pub rx: RxPin,
}

impl Pins {
    pub fn new(tx: TxPin, rx: RxPin) -> (p: Self)
        ensures
            p == (Pins { tx, rx }),
    {
        Pins { tx, rx }
    }

    /// TX on PA2, RX on PA0.
    pub fn pa2_pa0() -> (p: Self)
        ensures
            p == (Pins { tx: TxPin::Pa2, rx: RxPin::Pa0 }),
    {
        Pins::new(TxPin::Pa2, RxPin::Pa0)
    }

    /// TX on PB1, RX on PA0.
    pub fn pb1_pa0() -> (p: Self)
        ensures
            p == (Pins { tx: TxPin::Pb1, rx: RxPin::Pa0 }),
    {
        Pins::new(TxPin::Pb1, RxPin::Pa0)
    }

    /// TX on PB1, RX on PB0.
    pub fn pb1_pb0() -> (p: Self)
        ensures
            p == (Pins { tx: TxPin::Pb1, rx: RxPin::Pb0 }),
    {
        Pins::new(TxPin::Pb1, RxPin::Pb0)
    }

    /// TX on PC2, RX on PC3.
    pub fn pc2_pc3() -> (p: Self)
        ensures
            p == (Pins { tx: TxPin::Pc2, rx: RxPin::Pc3 }),
    {
        Pins::new(TxPin::Pc2, RxPin::Pc3)
    }
}

// ---------------------------------------------------------------------------
// Baud rate search
// ---------------------------------------------------------------------------

/// The divider and rate error that `bwpc` (bit width per clock, the
/// oversampling minus one) gives for `baud` from a `sys` Hz clock, when it
/// gives any: the divider is `sys / (baud * (bwpc + 1)) - 1` with the product
/// saturated at `u32::MAX`, and must fit in 15 bits.
pub open spec fn baud_candidate(sys: u32, baud: u32, bwpc: u8) -> Option<(u16, u32)> {
    let prod = baud * (bwpc + 1);
    let denom: int = if prod > u32::MAX { u32::MAX as int } else { prod };
    if denom == 0 {
        None
    } else {
        let q = sys as int / denom;
        if q == 0 {
            None
        } else if q - 1 > 0x7fff {
            None
        } else {
            let actual = sys as int / (q * (bwpc + 1));
            let err = if actual >= baud { actual - baud } else { baud - actual };
            Some(((q - 1) as u16, err as u32))
        }
    }
}

/// Whether some `bwpc` in 3..=15 gives a usable divider.
pub open spec fn baud_config_exists(sys: u32, baud: u32) -> bool {
    exists|b: u8| 3 <= b <= 15 && (#[trigger] baud_candidate(sys, baud, b)) is Some
}

/// `(div, bwpc)` is the setting the search picks: among the `bwpc` in 3..=15
/// that give a divider, one with the smallest rate error, and of those the
/// largest `bwpc`.
pub open spec fn is_best_baud(sys: u32, baud: u32, div: u16, bwpc: u8) -> bool {
    &&& 3 <= bwpc <= 15
    &&& baud_candidate(sys, baud, bwpc) is Some
    &&& baud_candidate(sys, baud, bwpc).unwrap().0 == div
    &&& forall|b: u8|
        3 <= b <= 15 && (#[trigger] baud_candidate(sys, baud, b)) is Some ==> {
            let e = baud_candidate(sys, baud, bwpc).unwrap().1;
            let eb = baud_candidate(sys, baud, b).unwrap().1;
            e < eb || (e == eb && b <= bwpc)
        }
}

/// The divider and rate error of one `bwpc`.
fn baud_candidate_exec(sys: u32, baud: u32, bwpc: u8) -> (r: Option<(u16, u32)>)
    requires
        bwpc <= 15,
    ensures
        r == baud_candidate(sys, baud, bwpc),
{
    let factor: u64 = bwpc as u64 + 1;
    assert(baud as u64 * factor <= 0xffff_ffffu64 * 16) by (nonlinear_arith)
        requires
            factor <= 16,
    ;
    let prod: u64 = baud as u64 * factor;
    let denom: u32 = if prod > 0xffff_ffffu64 { 0xffff_ffffu32 } else { prod as u32 };
    if denom == 0 {
        return None;
    }
    let q: u32 = sys / denom;
    if q == 0 {
        return None;
    }
    let div: u32 = q - 1;
    if div > 0x7fff {
        return None;
    }
    assert(q as u64 * factor <= 0x8000 * 16) by (nonlinear_arith)
        requires
            q <= 0x8000,
            factor <= 16,
    ;
    assert(q as u64 * factor > 0) by (nonlinear_arith)
        requires
            q >= 1,
            factor >= 1,
    ;
    let span: u32 = (q as u64 * factor) as u32;
    let actual: u32 = sys / span;
    let err: u32 = if actual >= baud { actual - baud } else { baud - actual };
    Some((div as u16, err))
}

/// Whether some `bwpc` in 3..=15 gives a usable divider for `baudrate` from
/// a `sysclk_hz` clock (the condition under which the search succeeds).
pub fn baud_config_available(sysclk_hz: u32, baudrate: u32) -> (b: bool)
    ensures
        b == baud_config_exists(sysclk_hz, baudrate),
{
    let mut bwpc: u8 = 3;
    while bwpc <= 15
        invariant
            3 <= bwpc <= 16,
            forall|b: u8| 3 <= b < bwpc ==> (#[trigger] baud_candidate(sysclk_hz, baudrate, b)) is None,
        decreases 16 - bwpc,
    {
        if baud_candidate_exec(sysclk_hz, baudrate, bwpc).is_some() {
            return true;
        }
        bwpc = bwpc + 1;
    }
    false
}

/// The clock divider and bit width for `baudrate` from a `sysclk_hz` clock.
pub fn compute_baud_params(sysclk_hz: u32, baudrate: u32) -> (r: (u16, u8))
    requires
        sysclk_hz != 0,
        baudrate != 0,
        baud_config_exists(sysclk_hz, baudrate),
    ensures
        is_best_baud(sysclk_hz, baudrate, r.0, r.1),
{
    let mut best: Option<(u16, u8, u32)> = None;
    let mut bwpc: u8 = 3;
    while bwpc <= 15
        invariant
            3 <= bwpc <= 16,
            best is None ==> forall|b: u8| 3 <= b < bwpc ==> (#[trigger] baud_candidate(sysclk_hz, baudrate, b)) is None,
            best matches Some((d, c, e)) ==> {
                &&& 3 <= c < bwpc
                &&& baud_candidate(sysclk_hz, baudrate, c) == Some((d, e))
                &&& forall|b: u8|
                    3 <= b < bwpc && (#[trigger] baud_candidate(sysclk_hz, baudrate, b)) is Some ==> {
                        let eb = baud_candidate(sysclk_hz, baudrate, b).unwrap().1;
                        e < eb || (e == eb && b <= c)
                    }
            },
        decreases 16 - bwpc,
    {
        match baud_candidate_exec(sysclk_hz, baudrate, bwpc) {
            None => {},
            Some((div, err)) => {
                let take = match best {
                    None => true,
                    Some((_, _, best_err)) => err <= best_err,
                };
                if take {
                    best = Some((div, bwpc, err));
                }
            },
        }
        bwpc = bwpc + 1;
    }
    match best {
        Some((d, c, _)) => (d, c),
        None => {
            proof {
                let w = choose|b: u8| 3 <= b <= 15 && (#[trigger] baud_candidate(sysclk_hz, baudrate, b)) is Some;
                assert(baud_candidate(sysclk_hz, baudrate, w) is None);
            }
            (0, 0)
        },
    }
}

// ---------------------------------------------------------------------------
// The peripheral
// ---------------------------------------------------------------------------

/// The clock-enable and reset pulse that bring the UART block up.
pub open spec fn enable_ops() -> Seq<RegOp> {
    seq![
        RegOp::Modify8 { addr: (RESET_BASE + 3) as u32, clear: 0, set: 0x04 },
        RegOp::Modify8 { addr: RESET_BASE, clear: 0, set: 0x04 },
        RegOp::Modify8 { addr: RESET_BASE, clear: 0x04, set: 0 },
    ]
}

/// The line control byte: parity enable and odd parity bits, then the stop
/// bit field.
pub open spec fn ctrl1_value(config: Config) -> u8 {
    let parity: u8 = match config.parity {
        Parity::Disabled => 0,
        Parity::Even => 0x04,
        Parity::Odd => 0x0c,
    };
    parity | stop_bits_code(config.stop_bits)
}

/// The writes that configure the line for `config` with divider `div` and
/// bit width `bwpc`.
pub open spec fn configure_ops(config: Config, div: u16, bwpc: u8) -> Seq<RegOp> {
    seq![
        RegOp::Write8 { addr: uart_reg(UART_CTRL0), value: bwpc & 0x0f },
        RegOp::Write16 { addr: uart_reg(UART_CLK_DIV), value: div | 0x8000 },
        RegOp::Write8 { addr: uart_reg(UART_RX_TIMEOUT0), value: (((bwpc + 1) % 256) * 3 % 256) as u8 },
        RegOp::Modify8 { addr: uart_reg(UART_RX_TIMEOUT1), clear: 0x03, set: 0x01 },
        RegOp::Write16 { addr: uart_reg(UART_CTRL2), value: 0 },
        RegOp::Write8 { addr: uart_reg(UART_CTRL1), value: ctrl1_value(config) },
    ]
}

/// The UART, with the data slots it will use next for sending and
/// receiving (the data window is four byte registers wide).
pub struct Uart {
    tx_index: u8,
    rx_index: u8,
}

impl Uart {
    #[verifier::type_invariant]
    spec fn slots_in_window(self) -> bool {
        self.tx_index < 4 && self.rx_index < 4
    }

    /// The data slot the next byte sent goes to.
    pub closed spec fn tx_slot(self) -> u8 {
        self.tx_index
    }

    /// The data slot the next byte received comes from.
    pub closed spec fn rx_slot(self) -> u8 {
        self.rx_index
    }

    /// Enables and resets the block; both windows start at slot 0.
    pub fn new(ops: &mut Vec<RegOp>) -> (u: Self)
        ensures
            u.tx_slot() == 0,
            u.rx_slot() == 0,
            final(ops)@ == old(ops)@ + enable_ops(),
    {
        let ghost start = ops@;
        ops.push(RegOp::Modify8 { addr: RESET_BASE + 3, clear: 0, set: 0x04 });
        ops.push(RegOp::Modify8 { addr: RESET_BASE, clear: 0, set: 0x04 });
        ops.push(RegOp::Modify8 { addr: RESET_BASE, clear: 0x04, set: 0 });
        assert(ops@ =~= start + enable_ops());
        Uart { tx_index: 0, rx_index: 0 }
    }

    /// Configures baud rate, parity and stop bits for a system clock of
    /// `sys_mhz` MHz, in polled mode, and restarts both windows at slot 0.
    pub fn configure(&mut self, ops: &mut Vec<RegOp>, config: Config, sys_mhz: u8)
        requires
            sys_mhz != 0,
            config.baudrate != 0,
            baud_config_exists((sys_mhz * 1_000_000) as u32, config.baudrate),
        ensures
            final(self).tx_slot() == 0,
            final(self).rx_slot() == 0,
            exists|div: u16, bwpc: u8|
                is_best_baud((sys_mhz * 1_000_000) as u32, config.baudrate, div, bwpc) && final(ops)@ == old(ops)@
                    + #[trigger] configure_ops(config, div, bwpc),
    {
        let ghost start = ops@;
        let sys_hz: u32 = sys_mhz as u32 * 1_000_000;
        let (div, bwpc) = compute_baud_params(sys_hz, config.baudrate);
        ops.push(RegOp::Write8 { addr: uart_reg(UART_CTRL0), value: bwpc & 0x0f });
        ops.push(RegOp::Write16 { addr: uart_reg(UART_CLK_DIV), value: div | 0x8000 });
        ops.push(
            RegOp::Write8 { addr: uart_reg(UART_RX_TIMEOUT0), value: bwpc.wrapping_add(1).wrapping_mul(3) },
        );
        ops.push(RegOp::Modify8 { addr: uart_reg(UART_RX_TIMEOUT1), clear: 0x03, set: 0x01 });
        ops.push(RegOp::Write16 { addr: uart_reg(UART_CTRL2), value: 0 });
        let parity: u8 = match config.parity {
            Parity::Disabled => 0,
            Parity::Even => 0x04,
            Parity::Odd => 0x0c,
        };
        ops.push(RegOp::Write8 { addr: uart_reg(UART_CTRL1), value: parity | config.stop_bits.code() });
        assert(ops@ =~= start + configure_ops(config, div, bwpc));
        *self = Uart { tx_index: 0, rx_index: 0 };
    }

    /// Whether the transmitter is still shifting, from the status register.
    pub fn is_tx_busy(&self, status: u8) -> (b: bool)
        ensures
            b == (status & 0x01 == 0),
    {
        status & 0x01 == 0
    }

    /// Waits until the transmitter is idle.
    pub fn flush(&mut self, ops: &mut Vec<RegOp>)
        ensures
            *final(self) == *old(self),
            final(ops)@ == old(ops)@.push(RegOp::WaitSet8 { addr: uart_reg(UART_STATUS), mask: 0x01 }),
    {
        ops.push(RegOp::WaitSet8 { addr: uart_reg(UART_STATUS), mask: 0x01 });
    }

    /// Whether a received byte waits, from the buffer count register (RX
    /// count in the low nibble).
    pub fn read_ready(&self, buf_cnt: u8) -> (b: bool)
        ensures
            b == (buf_cnt & 0x0f != 0),
    {
        buf_cnt & 0x0f != 0
    }

    /// Bytes waiting in the TX FIFO, from the buffer count register.
    pub fn tx_fifo_count(&self, buf_cnt: u8) -> (n: u8)
        ensures
            n == buf_cnt >> 4u8,
    {
        buf_cnt >> 4u8
    }

    /// Waits for a received byte and names the data register to read it
    /// from; the receive window moves on one slot.
    pub fn read_byte(&mut self, ops: &mut Vec<RegOp>) -> (addr: u32)
        ensures
            addr == UART_BASE + old(self).rx_slot(),
            final(self).rx_slot() == (old(self).rx_slot() + 1) % 4,
            final(self).tx_slot() == old(self).tx_slot(),
            final(ops)@ == old(ops)@.push(RegOp::WaitSet8 { addr: uart_reg(UART_BUF_CNT), mask: 0x0f }),
    {
        proof {
            use_type_invariant(&*self);
        }
        let addr = UART_BASE + self.rx_index as u32;
        ops.push(RegOp::WaitSet8 { addr: uart_reg(UART_BUF_CNT), mask: 0x0f });
        let inc: u8 = self.rx_index + 1;
        let next = inc & 0x03;
        assert(next == inc % 4) by (bit_vector)
            requires
                next == inc & 0x03,
        ;
        self.rx_index = next;
        addr
    }

    /// Waits for room in the TX FIFO (fewer than eight bytes) and sends
    /// `byte` through the next slot.
    pub fn write_byte(&mut self, ops: &mut Vec<RegOp>, byte: u8)
        ensures
            final(self).tx_slot() == (old(self).tx_slot() + 1) % 4,
            final(self).rx_slot() == old(self).rx_slot(),
            final(ops)@ == old(ops)@ + write_byte_ops(old(self).tx_slot(), byte),
    {
        proof {
            use_type_invariant(&*self);
        }
        let ghost start = ops@;
        ops.push(RegOp::WaitClear8 { addr: uart_reg(UART_BUF_CNT), mask: 0x80 });
        ops.push(RegOp::Write8 { addr: UART_BASE + self.tx_index as u32, value: byte });
        assert(ops@ =~= start + write_byte_ops(self.tx_index, byte));
        let inc: u8 = self.tx_index + 1;
        let next = inc & 0x03;
        assert(next == inc % 4) by (bit_vector)
            requires
                next == inc & 0x03,
        ;
        self.tx_index = next;
    }

    /// One poll of a bounded send: with the TX FIFO full (count above 7),
    /// gives up once `spins` reached `max_spins` and asks for another poll
    /// otherwise; with room, sends `byte` through the next slot.
    pub fn try_write_byte(&mut self, ops: &mut Vec<RegOp>, byte: u8, buf_cnt: u8, spins: u32, max_spins: u32) -> (r:
        TryWrite)
        ensures
            (buf_cnt >> 4u8) > 7 ==> *final(self) == *old(self) && final(ops)@ == old(ops)@ && r == (if spins
                >= max_spins {
                TryWrite::GaveUp
            } else {
                TryWrite::Poll { spins: (spins + 1) as u32 }
            }),
            (buf_cnt >> 4u8) <= 7 ==> r == TryWrite::Written && final(self).tx_slot() == (old(self).tx_slot() + 1)
                % 4 && final(self).rx_slot() == old(self).rx_slot() && final(ops)@ == old(ops)@.push(
                RegOp::Write8 { addr: (UART_BASE + old(self).tx_slot()) as u32, value: byte },
            ),
    {
        proof {
            use_type_invariant(&*self);
        }
        if (buf_cnt >> 4u8) > 7 {
            if spins >= max_spins {
                return TryWrite::GaveUp;
            }
            return TryWrite::Poll { spins: spins + 1 };
        }
        ops.push(RegOp::Write8 { addr: UART_BASE + self.tx_index as u32, value: byte });
        let inc: u8 = self.tx_index + 1;
        let next = inc & 0x03;
        assert(next == inc % 4) by (bit_vector)
            requires
                next == inc & 0x03,
        ;
        self.tx_index = next;
        TryWrite::Written
    }

    /// Sends `bytes` in order, each as `write_byte` does.
    pub fn write_bytes(&mut self, ops: &mut Vec<RegOp>, bytes: &[u8])
        ensures
            final(self).tx_slot() == (old(self).tx_slot() + bytes@.len()) % 4,
            final(self).rx_slot() == old(self).rx_slot(),
            final(ops)@ == old(ops)@ + write_bytes_ops(old(self).tx_slot() as int, bytes@),
    {
        proof {
            use_type_invariant(&*self);
        }
        let ghost start = ops@;
        let ghost slot0 = self.tx_slot();
        let ghost rx0 = self.rx_slot();
        let mut i: usize = 0;
        while i < bytes.len()
            invariant
                i <= bytes@.len(),
                self.tx_slot() == (slot0 + i) % 4,
                self.rx_slot() == rx0,
                ops@ == start + write_bytes_ops(slot0 as int, bytes@.take(i as int)),
            decreases bytes@.len() - i,
        {
            let ghost before = ops@;
            let ghost slot = self.tx_slot();
            self.write_byte(ops, bytes[i]);
            proof {
                lemma_write_bytes_ops_push(slot0 as int, bytes@.take(i as int), bytes@[i as int]);
                assert(bytes@.take(i + 1) =~= bytes@.take(i as int).push(bytes@[i as int]));
                assert(((slot0 + i) % 4 + 1) % 4 == (slot0 + i + 1) % 4);
            }
            i = i + 1;
        }
        assert(bytes@.take(bytes@.len() as int) =~= bytes@);
    }
}

/// One poll of a bounded send.
#[derive(Clone, Copy, Debug, PartialEq, Eq, Structural)]
pub enum TryWrite {
    /// The byte went out.
    Written,
    /// The FIFO is full; poll again with this spin count.
    Poll { spins: u32 },
    /// The FIFO stayed full for the allowed number of polls.
    GaveUp,
}

/// The wait for FIFO room and the write of `byte` into data slot `slot`.
pub open spec fn write_byte_ops(slot: u8, byte: u8) -> Seq<RegOp> {
    seq![
        RegOp::WaitClear8 { addr: uart_reg(UART_BUF_CNT), mask: 0x80 },
        RegOp::Write8 { addr: (UART_BASE + slot) as u32, value: byte },
    ]
}

/// The writes of `bytes` sent from data slot `slot` onwards.
pub open spec fn write_bytes_ops(slot: int, bytes: Seq<u8>) -> Seq<RegOp>
    decreases bytes.len(),
{
    if bytes.len() == 0 {
        Seq::empty()
    } else {
        write_bytes_ops(slot, bytes.drop_last()) + write_byte_ops(
            ((slot + bytes.len() - 1) % 4) as u8,
            bytes.last(),
        )
    }
}

proof fn lemma_write_bytes_ops_push(slot: int, bytes: Seq<u8>, b: u8)
    ensures
        write_bytes_ops(slot, bytes.push(b)) == write_bytes_ops(slot, bytes) + write_byte_ops(
            ((slot + bytes.len()) % 4) as u8,
            b,
        ),
{
    assert(bytes.push(b).drop_last() =~= bytes);
}

// ---------------------------------------------------------------------------
// Pads
// ---------------------------------------------------------------------------

/// The mux writes with which the vendor routes UART to PA0 and PB1, and
/// takes the pad out of GPIO mode; other pads have none.
pub open spec fn uart_mux_vendor_ops(raw: u16) -> Option<Seq<RegOp>> {
    if raw == 0x0001 {
        Some(
            seq![
                RegOp::Modify8 { addr: 0x0080_05a8, clear: 0x03, set: 0x02 },
                RegOp::Modify8 { addr: 0x0080_0586, clear: 0x01, set: 0 },
            ],
        )
    } else if raw == 0x0102 {
        Some(
            seq![
                RegOp::Modify8 { addr: 0x0080_05aa, clear: 0x0c, set: 0x04 },
                RegOp::Modify8 { addr: 0x0080_058e, clear: 0x02, set: 0 },
            ],
        )
    } else {
        None
    }
}

/// Routes UART to PA0 or PB1 the vendor's way; `false` for other pads.
pub fn set_uart_mux_vendor_8258(ops: &mut Vec<RegOp>, raw_pin: u16) -> (done: bool)
    ensures
        done == uart_mux_vendor_ops(raw_pin) is Some,
        done ==> final(ops)@ == old(ops)@ + uart_mux_vendor_ops(raw_pin)->0,
        !done ==> final(ops)@ == old(ops)@,
{
    let ghost start = ops@;
    if raw_pin == 0x0001 {
        ops.push(RegOp::Modify8 { addr: 0x0080_05a8, clear: 0x03, set: 0x02 });
        ops.push(RegOp::Modify8 { addr: 0x0080_0586, clear: 0x01, set: 0 });
        assert(ops@ =~= start + uart_mux_vendor_ops(raw_pin)->0);
        true
    } else if raw_pin == 0x0102 {
        ops.push(RegOp::Modify8 { addr: 0x0080_05aa, clear: 0x0c, set: 0x04 });
        ops.push(RegOp::Modify8 { addr: 0x0080_058e, clear: 0x02, set: 0 });
        assert(ops@ =~= start + uart_mux_vendor_ops(raw_pin)->0);
        true
    } else {
        false
    }
}

/// The writes that connect a pad to the UART: the vendor mux where it has
/// one, else the pinmux table (none when the table has no UART route).
pub open spec fn uart_function_ops(raw: u16) -> Seq<RegOp> {
    match uart_mux_vendor_ops(raw) {
        Some(s) => s,
        None => {
            let (port, bit, mask) = decode_checked(raw)->0;
            if function_error(RawPin::spec_from_value(raw), PinFunction::Uart) is None {
                function_ops(raw, port, bit, mask, PinFunction::Uart)
            } else {
                Seq::empty()
            }
        },
    }
}

/// Port and mask of a pad code.
pub open spec fn pad_port(raw: u16) -> u8 {
    (raw / 256) as u8
}

pub open spec fn pad_mask(raw: u16) -> u8 {
    (raw % 256) as u8
}

/// The whole pad setup of `apply_pins`.
pub open spec fn apply_pins_ops(pins: Pins) -> Seq<RegOp> {
    let tx = tx_code(pins.tx);
    let rx = rx_code(pins.rx);
    pull_ops(pad_port(tx), mask_bit(pad_mask(tx))->0, Pull::PullUp10K) + pull_ops(
        pad_port(rx),
        mask_bit(pad_mask(rx))->0,
        Pull::PullUp10K,
    ) + uart_function_ops(tx) + uart_function_ops(rx) + seq![
        bits8_op(port_reg(pad_port(tx), 2), pad_mask(tx), false),
        bits8_op(port_reg(pad_port(rx), 2), pad_mask(rx), true),
        input_enable_op(pad_port(tx), pad_mask(tx), true),
        input_enable_op(pad_port(rx), pad_mask(rx), true),
    ]
}

/// Connects one pad to the UART.
fn route_uart_pad(ops: &mut Vec<RegOp>, pin: RawPin)
    requires
        decode_checked(pin.value()) is Some,
    ensures
        final(ops)@ == old(ops)@ + uart_function_ops(pin.value()),
{
    let ghost start = ops@;
    if !set_uart_mux_vendor_8258(ops, pin.as_u16()) {
        let _ = set_function_raw(ops, pin, PinFunction::Uart);
        proof {
            RawPin::lemma_from_value(pin);
        }
    }
    assert(ops@ =~= start + uart_function_ops(pin.value()));
}

/// Pulls both pads up, routes them to the UART, and makes TX an output
/// and RX an input (both with input enabled).
pub fn apply_pins(ops: &mut Vec<RegOp>, pins: Pins)
    ensures
        final(ops)@ == old(ops)@ + apply_pins_ops(pins),
{
    let ghost start = ops@;
    let tx = pins.tx.raw_pin();
    let rx = pins.rx.raw_pin();
    set_pull_resistor_raw(ops, tx, Pull::PullUp10K);
    set_pull_resistor_raw(ops, rx, Pull::PullUp10K);
    route_uart_pad(ops, tx);
    route_uart_pad(ops, rx);
    set_output_enabled_raw(ops, tx, true);
    set_output_enabled_raw(ops, rx, false);
    set_input_enabled_raw(ops, tx, true);
    set_input_enabled_raw(ops, rx, true);
    assert(ops@ =~= start + apply_pins_ops(pins));
}

} // verus!
