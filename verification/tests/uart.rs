use tlsr82xx::mmio::RegOp;
use tlsr82xx::uart::{compute_baud_params, Config, Parity, StopBits, TryWrite, Uart, UART_BASE};

#[test]
fn baud_search_picks_smallest_error_then_widest_oversampling() {
    assert_eq!(compute_baud_params(48_000_000, 115_200), (25, 15));
    assert_eq!(compute_baud_params(24_000_000, 115_200), (12, 15));
    assert_eq!(compute_baud_params(16_000_000, 9_600), (118, 13));
    assert_eq!(compute_baud_params(48_000_000, 1_000_000), (2, 15));
    assert_eq!(compute_baud_params(32_000_000, 115_200), (22, 11));
}

#[test]
fn configure_writes_divider_and_line_control() {
    let mut ops = Vec::new();
    let mut uart = Uart::new(&mut ops);
    ops.clear();
    let config = Config::new(115_200).parity(Parity::Odd).stop_bits(StopBits::Two);
    uart.configure(&mut ops, config, 48);
    assert_eq!(
        ops,
        vec![
            RegOp::Write8 { addr: UART_BASE + 0x06, value: 15 },
            RegOp::Write16 { addr: UART_BASE + 0x04, value: 25 | 0x8000 },
            RegOp::Write8 { addr: UART_BASE + 0x0a, value: 48 },
            RegOp::Modify8 { addr: UART_BASE + 0x0b, clear: 0x03, set: 0x01 },
            RegOp::Write16 { addr: UART_BASE + 0x08, value: 0 },
            RegOp::Write8 { addr: UART_BASE + 0x07, value: 0x0c | 0x20 },
        ]
    );
}

#[test]
fn data_slots_wrap_after_four_bytes() {
    let mut ops = Vec::new();
    let mut uart = Uart::new(&mut ops);
    ops.clear();
    uart.write_bytes(&mut ops, &[1, 2, 3, 4, 5]);
    let writes: Vec<u32> = ops
        .iter()
        .filter_map(|op| match op {
            RegOp::Write8 { addr, .. } => Some(*addr),
            _ => None,
        })
        .collect();
    assert_eq!(writes, vec![UART_BASE, UART_BASE + 1, UART_BASE + 2, UART_BASE + 3, UART_BASE]);
    let addr = uart.read_byte(&mut ops);
    assert_eq!(addr, UART_BASE);
    assert_eq!(uart.read_byte(&mut ops), UART_BASE + 1);
}

#[test]
fn try_write_byte_polls_then_gives_up() {
    let mut ops = Vec::new();
    let mut uart = Uart::new(&mut ops);
    ops.clear();
    assert_eq!(uart.try_write_byte(&mut ops, 7, 0x80, 0, 2), TryWrite::Poll { spins: 1 });
    assert_eq!(uart.try_write_byte(&mut ops, 7, 0x80, 2, 2), TryWrite::GaveUp);
    assert!(ops.is_empty());
    assert_eq!(uart.try_write_byte(&mut ops, 7, 0x70, 2, 2), TryWrite::Written);
    assert_eq!(ops, vec![RegOp::Write8 { addr: UART_BASE, value: 7 }]);
}

#[test]
fn status_bits_decode() {
    let mut ops = Vec::new();
    let uart = Uart::new(&mut ops);
    assert!(uart.is_tx_busy(0x00));
    assert!(!uart.is_tx_busy(0x01));
    assert!(uart.read_ready(0x03));
    assert!(!uart.read_ready(0x30));
    assert_eq!(uart.tx_fifo_count(0x50), 5);
}
