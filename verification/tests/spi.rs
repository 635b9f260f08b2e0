use tlsr82xx::mmio::RegOp;
use tlsr82xx::spi::{
    compute_divider, encode_mode, transfer_tx_bytes, wait_not_busy_step, Config, Mode, Phase, Polarity, Spi,
    SpiPinGroup, SpiPoll,
};

#[test]
fn divider_is_half_clock_per_bit_minus_one_capped() {
    assert_eq!(compute_divider(48, 4_000_000), 5);
    assert_eq!(compute_divider(48, 0), 0x7f);
    assert_eq!(compute_divider(48, 100_000_000), 0);
}

#[test]
fn modes_encode_polarity_and_phase() {
    let m = |polarity, phase| Mode { polarity, phase };
    assert_eq!(encode_mode(m(Polarity::IdleLow, Phase::CaptureOnFirstTransition)), 0);
    assert_eq!(encode_mode(m(Polarity::IdleHigh, Phase::CaptureOnFirstTransition)), 1);
    assert_eq!(encode_mode(m(Polarity::IdleLow, Phase::CaptureOnSecondTransition)), 2);
    assert_eq!(encode_mode(m(Polarity::IdleHigh, Phase::CaptureOnSecondTransition)), 3);
}

#[test]
fn transfer_pads_with_dummy_bytes() {
    assert_eq!(transfer_tx_bytes(4, &[9, 8]), vec![9, 8, 0, 0]);
    assert_eq!(transfer_tx_bytes(1, &[9, 8, 7]), vec![9, 8, 7]);
    assert_eq!(wait_not_busy_step(0, 0x40), SpiPoll::Again(1));
    assert_eq!(wait_not_busy_step(0, 0x00), SpiPoll::Idle);
}

#[test]
fn bring_up_sets_master_and_share_mode() {
    let mut ops = Vec::new();
    let mode = Mode { polarity: Polarity::IdleHigh, phase: Phase::CaptureOnSecondTransition };
    let spi = Spi::new(&mut ops, Config::new(SpiPinGroup::A2A3A4D6, 4_000_000, mode).with_share_mode(true), 48);
    assert_eq!(spi.frequency_hz(), 4_000_000);
    assert_eq!(ops.len(), 5);
    assert_eq!(ops[1], RegOp::Write8 { addr: 0x0080_000a, value: 0x85 });
    assert_eq!(ops[3], RegOp::Modify8 { addr: 0x0080_0009, clear: 0, set: 0x22 });
    assert_eq!(ops[4], RegOp::Write8 { addr: 0x0080_000b, value: 3 });
}
