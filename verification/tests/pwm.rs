use tlsr82xx::mmio::RegOp;
use tlsr82xx::pwm::{Channel, Pwm};

#[test]
fn configure_clamps_duty_and_remembers_period() {
    let mut ops = Vec::new();
    let mut pwm = Pwm::new(&mut ops);
    ops.clear();
    pwm.configure(&mut ops, Channel::Pwm0, 1000, 2000);
    assert_eq!(
        ops,
        vec![RegOp::Write8 { addr: 0x0080_0783, value: 0 }, RegOp::Write32 { addr: 0x0080_0794, value: 1000 | (1000 << 16) }]
    );
    assert_eq!(pwm.period_ticks(Channel::Pwm0), 1000);
    assert_eq!(pwm.period_ticks(Channel::Pwm1), 0);
}

#[test]
fn duty_fraction_scales_the_period() {
    let mut ops = Vec::new();
    let mut pwm = Pwm::new(&mut ops);
    pwm.configure(&mut ops, Channel::Pwm2, 1000, 0);
    ops.clear();
    pwm.set_duty_8bit(&mut ops, Channel::Pwm2, 128);
    assert_eq!(ops, vec![RegOp::Write32 { addr: 0x0080_079c, value: 501 | (1000 << 16) }]);
    ops.clear();
    pwm.set_duty_fraction(&mut ops, Channel::Pwm2, 1, 4);
    assert_eq!(ops, vec![RegOp::Write32 { addr: 0x0080_079c, value: 250 | (1000 << 16) }]);
}

#[test]
fn enable_uses_the_pwm0_register_for_channel_zero() {
    let mut ops = Vec::new();
    let mut pwm = Pwm::new(&mut ops);
    ops.clear();
    pwm.enable(&mut ops, Channel::Pwm0);
    pwm.enable(&mut ops, Channel::Pwm3);
    pwm.set_clock(&mut ops, 48_000_000, 12_000_000);
    assert_eq!(
        ops,
        vec![
            RegOp::Modify8 { addr: 0x0080_0781, clear: 0, set: 0x01 },
            RegOp::Modify8 { addr: 0x0080_0780, clear: 0, set: 0x08 },
            RegOp::Write8 { addr: 0x0080_0782, value: 3 },
        ]
    );
}
