use tlsr82xx::ble::beacon::{
    BeaconAdvertiser, BeaconBurst, BeaconConfig, BeaconFailureReason, BurstAction, BurstEvent,
};
use tlsr82xx::mmio::RegOp;
use tlsr82xx::radio::Radio;

const TX_ADDR: usize = 0x2000;

fn advertiser(channels: [u8; 3]) -> BeaconAdvertiser {
    let config = BeaconConfig { channels, ..BeaconConfig::default() };
    BeaconAdvertiser::new(Radio::new(), config, [1, 2, 3, 4, 5, 6], &[0x02, 0x01, 0x06], 0).unwrap()
}

fn step(adv: &mut BeaconAdvertiser, b: &mut BeaconBurst, ops: &mut Vec<RegOp>, ev: BurstEvent) -> BurstAction {
    adv.burst_step(b, TX_ADDR, ops, ev)
}

/// Takes the current channel from "programmed" to "polling"; returns the
/// action after the last tick.
fn to_polling(adv: &mut BeaconAdvertiser, b: &mut BeaconBurst, ops: &mut Vec<RegOp>) -> BurstAction {
    assert_eq!(step(adv, b, ops, BurstEvent::Tick(0)), BurstAction::ReadTick);
    // 180 us of settle time are 2880 ticks: not yet, then passed.
    assert_eq!(step(adv, b, ops, BurstEvent::Tick(2880)), BurstAction::ReadTick);
    assert_eq!(step(adv, b, ops, BurstEvent::Tick(2881)), BurstAction::ReadTick);
    assert_eq!(step(adv, b, ops, BurstEvent::Tick(5000)), BurstAction::ReadTick);
    assert_eq!(step(adv, b, ops, BurstEvent::Tick(6000)), BurstAction::ReadTick);
    step(adv, b, ops, BurstEvent::Tick(6001))
}

#[test]
fn a_burst_sends_on_all_three_channels() {
    let mut adv = advertiser([37, 38, 39]);
    let mut b = adv.run_event();
    let mut ops = Vec::new();
    assert_eq!(step(&mut adv, &mut b, &mut ops, BurstEvent::Begin), BurstAction::ReadTick);
    assert!(ops.contains(&RegOp::Write8 { addr: 0x0080_040d, value: 37 }));
    for ch in 0..3 {
        assert_eq!(to_polling(&mut adv, &mut b, &mut ops), BurstAction::ReadIrq);
        // Nothing pending yet: back to the clock.
        assert_eq!(step(&mut adv, &mut b, &mut ops, BurstEvent::Irq(0)), BurstAction::ReadTick);
        assert_eq!(step(&mut adv, &mut b, &mut ops, BurstEvent::Tick(6002)), BurstAction::ReadIrq);
        let a = step(&mut adv, &mut b, &mut ops, BurstEvent::Irq(0x0002));
        if ch < 2 {
            assert_eq!(a, BurstAction::ReadTick);
        } else {
            match a {
                BurstAction::Finished(r) => {
                    assert!(r.ok);
                    assert_eq!((r.tx_attempts, r.tx_ok, r.tx_timeout, r.tx_other_irq), (3, 3, 0, 0));
                    assert_eq!(r.last_irq, 0x0002);
                    assert_eq!(r.failure_reason, None);
                },
                other => panic!("unexpected {:?}", other),
            }
        }
    }
    // The status is cleared before each transmission and the packet is
    // scheduled 10 ticks after the tick read.
    assert!(ops.contains(&RegOp::Write16 { addr: 0x0080_0f20, value: 0x1fff }));
    assert!(ops.contains(&RegOp::Write32 { addr: 0x0080_0f18, value: 5010 }));
    assert!(ops.contains(&RegOp::Write8 { addr: 0x0080_040d, value: 39 }));
}

#[test]
fn a_silent_radio_times_out() {
    let mut adv = advertiser([37, 38, 39]);
    let mut b = adv.run_event();
    let mut ops = Vec::new();
    step(&mut adv, &mut b, &mut ops, BurstEvent::Begin);
    assert_eq!(to_polling(&mut adv, &mut b, &mut ops), BurstAction::ReadIrq);
    step(&mut adv, &mut b, &mut ops, BurstEvent::Irq(0));
    // 4 ms of timeout are 64000 ticks after 6000.
    match step(&mut adv, &mut b, &mut ops, BurstEvent::Tick(6000 + 64001)) {
        BurstAction::Finished(r) => {
            assert!(!r.ok);
            assert_eq!(r.failure_reason, Some(BeaconFailureReason::Timeout));
            assert_eq!((r.failed_channel, r.tx_attempts, r.tx_ok, r.tx_timeout, r.tx_other_irq), (37, 1, 0, 1, 0));
        },
        other => panic!("unexpected {:?}", other),
    }
}

#[test]
fn an_unexpected_interrupt_ends_the_burst() {
    let mut adv = advertiser([37, 38, 39]);
    let mut b = adv.run_event();
    let mut ops = Vec::new();
    step(&mut adv, &mut b, &mut ops, BurstEvent::Begin);
    to_polling(&mut adv, &mut b, &mut ops);
    let before = ops.len();
    match step(&mut adv, &mut b, &mut ops, BurstEvent::Irq(0x0004)) {
        BurstAction::Finished(r) => {
            assert_eq!(r.failure_reason, Some(BeaconFailureReason::UnexpectedIrq));
            assert_eq!((r.tx_attempts, r.tx_ok, r.tx_timeout, r.tx_other_irq, r.last_irq), (1, 0, 0, 1, 4));
        },
        other => panic!("unexpected {:?}", other),
    }
    assert_eq!(ops[before..], [RegOp::Write16 { addr: tlsr82xx::regs::REG_RF_IRQ_STATUS, value: 0x1fff }]);
}

#[test]
fn a_refused_channel_is_a_configuration_failure() {
    let mut adv = advertiser([37, 38, 40]);
    let mut b = adv.run_event();
    let mut ops = Vec::new();
    step(&mut adv, &mut b, &mut ops, BurstEvent::Begin);
    for _ in 0..2 {
        to_polling(&mut adv, &mut b, &mut ops);
        let a = step(&mut adv, &mut b, &mut ops, BurstEvent::Irq(0x0100));
        if let BurstAction::Finished(r) = a {
            assert_eq!(r.failure_reason, Some(BeaconFailureReason::Config));
            assert_eq!((r.failed_channel, r.tx_attempts, r.tx_ok, r.tx_timeout, r.tx_other_irq), (40, 2, 2, 0, 1));
            return;
        }
    }
    panic!("the third channel was accepted");
}

#[test]
fn an_unaligned_packet_cannot_start() {
    let mut adv = advertiser([37, 38, 39]);
    let mut b = adv.run_event();
    let mut ops = Vec::new();
    adv.burst_step(&mut b, 0x2002, &mut ops, BurstEvent::Begin);
    adv.burst_step(&mut b, 0x2002, &mut ops, BurstEvent::Tick(0));
    adv.burst_step(&mut b, 0x2002, &mut ops, BurstEvent::Tick(3000));
    match adv.burst_step(&mut b, 0x2002, &mut ops, BurstEvent::Tick(3001)) {
        BurstAction::Finished(r) => {
            assert_eq!(r.failure_reason, Some(BeaconFailureReason::StartTx));
            assert_eq!((r.tx_attempts, r.tx_ok, r.tx_other_irq), (1, 0, 1));
        },
        other => panic!("unexpected {:?}", other),
    }
}

#[test]
fn an_event_is_due_once_per_interval() {
    let mut adv = advertiser([37, 38, 39]);
    // Made at tick 0, the last event counts as 100000 ticks before; an
    // interval is 100 ms, 1600000 ticks.
    assert!(adv.run_event_if_due(1_500_000).is_none());
    let b = adv.run_event_if_due(1_500_001).unwrap();
    assert_eq!(b, adv.run_event());
    assert!(adv.run_event_if_due(3_100_001).is_none());
    assert!(adv.run_event_if_due(3_100_002).is_some());
}
