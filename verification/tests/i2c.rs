use tlsr82xx::i2c::{
    clamp_frequency, finish, issue_step, step_outcome, transaction, wait_while_busy_step, BusyPoll, Config, I2c,
    I2cError, I2cOperation, I2cPinGroup, I2cStep, NoAcknowledgeSource, I2C_TIMEOUT_CYCLES,
};
use tlsr82xx::mmio::RegOp;

#[test]
fn write_then_read_restarts_once_with_read_address() {
    let ops = vec![I2cOperation::Write(vec![0x10, 0x20]), I2cOperation::Read(2)];
    let t = transaction(0x48, &ops);
    assert!(t.stop);
    assert_eq!(
        t.steps,
        vec![
            I2cStep::Start { restart: false, address_byte: 0x90, read: false },
            I2cStep::WriteByte(0x10),
            I2cStep::WriteByte(0x20),
            I2cStep::Start { restart: true, address_byte: 0x91, read: true },
            I2cStep::ReadByte { last: false },
            I2cStep::ReadByte { last: true },
        ]
    );
}

#[test]
fn consecutive_writes_share_one_start_and_empty_transaction_does_nothing() {
    let ops = vec![I2cOperation::Write(vec![1]), I2cOperation::Write(vec![2])];
    let t = transaction(0x10, &ops);
    assert_eq!(
        t.steps,
        vec![I2cStep::Start { restart: false, address_byte: 0x20, read: false }, I2cStep::WriteByte(1), I2cStep::WriteByte(2)]
    );
    let empty = transaction(0x10, &Vec::new());
    assert!(empty.steps.is_empty());
    assert!(!empty.stop);
}

#[test]
fn nak_on_address_and_data_map_to_their_sources() {
    let start = I2cStep::Start { restart: false, address_byte: 0x90, read: false };
    assert_eq!(step_outcome(start, 0x04), Err(I2cError::NoAcknowledge(NoAcknowledgeSource::Address)));
    assert_eq!(step_outcome(I2cStep::WriteByte(1), 0x04), Err(I2cError::NoAcknowledge(NoAcknowledgeSource::Data)));
    assert_eq!(step_outcome(I2cStep::ReadByte { last: true }, 0x04), Ok(()));
    assert_eq!(step_outcome(start, 0x00), Ok(()));
    assert_eq!(finish(Err(I2cError::Timeout), Err(I2cError::BusBusy)), Err(I2cError::Timeout));
    assert_eq!(finish(Ok(()), Err(I2cError::BusBusy)), Err(I2cError::BusBusy));
}

#[test]
fn busy_polls_time_out_after_the_limit() {
    assert_eq!(wait_while_busy_step(0, 0x00), BusyPoll::Done(0));
    assert_eq!(wait_while_busy_step(0, 0x01), BusyPoll::Again(1));
    assert_eq!(wait_while_busy_step(I2C_TIMEOUT_CYCLES - 1, 0x01), BusyPoll::TimedOut);
}

#[test]
fn frequency_is_clamped_and_divider_written() {
    assert_eq!(clamp_frequency(0), 1);
    assert_eq!(clamp_frequency(1_000_000), 400_000);
    let mut ops = Vec::new();
    let i2c = I2c::new(&mut ops, Config::new(I2cPinGroup::C0C1, 100_000), 48);
    assert_eq!(i2c.frequency_hz(), 100_000);
    assert_eq!(ops[2], RegOp::Write8 { addr: 0x0080_0000, value: 120 });
    let d = Config::default();
    assert_eq!(d.pin_group, I2cPinGroup::C0C1);
    assert_eq!(d.frequency_hz, 100_000);
}

#[test]
fn read_step_acknowledges_all_but_the_last_byte() {
    let mut ops = Vec::new();
    issue_step(&mut ops, I2cStep::ReadByte { last: false });
    issue_step(&mut ops, I2cStep::ReadByte { last: true });
    assert_eq!(ops, vec![RegOp::Write8 { addr: 0x0080_0007, value: 0x48 }, RegOp::Write8 { addr: 0x0080_0007, value: 0xc8 }]);
}
