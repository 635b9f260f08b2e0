use tlsr82xx::ble::ota::{OtaBootConfig, OtaCommandError, OtaLinkState, OtaPeripheral};
use tlsr82xx::flash::FlashTransfer;
use tlsr82xx::radio::Radio;

fn peripheral() -> OtaPeripheral {
    OtaPeripheral::new(Radio::new(), OtaBootConfig::default(), 0).unwrap()
}

fn write_of(t: &FlashTransfer) -> (u8, Option<u32>, Vec<u8>) {
    match t {
        FlashTransfer::Write { cmd, addr, data } => (*cmd, *addr, data.clone()),
        FlashTransfer::Read { .. } => panic!("expected a write"),
    }
}

#[test]
fn version_request_is_answered_with_the_firmware_version() {
    let mut p = peripheral();
    let mut ops = Vec::new();
    let r = p.process_att_write(0x000A, &[0x00, 0xFF], &mut ops).unwrap();
    assert_eq!(r.result_notify, Some([0x05, 0xFF, 1, 0]));
    assert_eq!(r.schedule_notify, None);
    assert!(ops.is_empty());
}

#[test]
fn a_full_session_erases_programs_and_commits() {
    let mut p = peripheral();
    let mut ops = Vec::new();
    let r = p.process_att_write(0x000A, &[0x01, 0xFF], &mut ops).unwrap();
    assert_eq!(r.result_notify, None);
    assert!(p.status().started);
    assert_eq!(p.status().pdu_len, 16);

    let mut chunk = vec![0x00, 0x00];
    let payload: Vec<u8> = (0u8..16).collect();
    chunk.extend_from_slice(&payload);
    p.process_att_write(0x000A, &chunk, &mut ops).unwrap();
    assert_eq!(ops.len(), 2);
    assert_eq!(write_of(&ops[0]), (0x20, Some(0x8000), vec![]));
    assert_eq!(write_of(&ops[1]), (0x02, Some(0x8000), payload));
    assert_eq!(p.status().expected_index, 1);
    assert_eq!(p.status().bytes_written, 16);

    // The second chunk lies in the sector already erased.
    let mut chunk2 = vec![0x01, 0x00];
    chunk2.extend_from_slice(&[0xAA; 16]);
    p.process_att_write(0x000A, &chunk2, &mut ops).unwrap();
    assert_eq!(ops.len(), 3);
    assert_eq!(write_of(&ops[2]), (0x02, Some(0x8010), vec![0xAA; 16]));
    assert_eq!(p.status().bytes_written, 32);

    let r = p.process_att_write(0x000A, &[0x02, 0xFF, 0x01, 0x00, 0xFE, 0xFF], &mut ops).unwrap();
    assert_eq!(r.result_notify, Some([0x06, 0xFF, 0, 0]));
    assert!(!p.status().started);
    assert_eq!(ops.len(), 5);
    assert_eq!(write_of(&ops[3]), (0x20, Some(0x7F000), vec![]));
    let meta = write_of(&ops[4]);
    assert_eq!(meta.0, 0x02);
    assert_eq!(meta.1, Some(0x7F000));
    assert_eq!(
        meta.2,
        vec![0x31, 0x41, 0x54, 0x4F, 0x44, 0x41, 0x45, 0x52, 32, 0, 0, 0, 0, 0, 0, 0]
    );
}

#[test]
fn a_chunk_out_of_order_is_refused() {
    let mut p = peripheral();
    let mut ops = Vec::new();
    p.process_att_write(0x000A, &[0x01, 0xFF], &mut ops).unwrap();
    let mut chunk = vec![0x05, 0x00];
    chunk.extend_from_slice(&[0u8; 16]);
    assert_eq!(p.process_att_write(0x000A, &chunk, &mut ops), Err(OtaCommandError::InvalidIndex));
    assert_eq!(p.status().ota_result, 2);
    assert!(ops.is_empty());
}

#[test]
fn data_before_start_is_a_flow_error() {
    let mut p = peripheral();
    let mut ops = Vec::new();
    let chunk = [0u8; 18];
    assert_eq!(p.process_att_write(0x000A, &chunk, &mut ops), Err(OtaCommandError::InvalidFlow));
    assert_eq!(p.status().ota_result, 6);
}

#[test]
fn end_with_a_bad_check_word_is_refused() {
    let mut p = peripheral();
    let mut ops = Vec::new();
    p.process_att_write(0x000A, &[0x01, 0xFF], &mut ops).unwrap();
    let r = p.process_att_write(0x000A, &[0x02, 0xFF, 0x00, 0x00, 0x00, 0x00], &mut ops);
    assert_eq!(r, Err(OtaCommandError::InvalidIndex));
}

#[test]
fn start_ext_checks_the_chunk_length() {
    let mut p = peripheral();
    let mut ops = Vec::new();
    let r = p.process_att_write(0x000A, &[0x03, 0xFF, 17, 0], &mut ops);
    assert_eq!(r, Err(OtaCommandError::InvalidPduLength));
    p.process_att_write(0x000A, &[0x03, 0xFF, 32, 0], &mut ops).unwrap();
    assert_eq!(p.status().pdu_len, 32);
}

#[test]
fn ccc_write_turns_notifications_on() {
    let mut p = peripheral();
    let mut ops = Vec::new();
    assert!(!p.status().ccc_enabled);
    p.process_att_write(0x000B, &[0x01, 0x00], &mut ops).unwrap();
    assert!(p.status().ccc_enabled);
    assert_eq!(p.process_att_write(0x000B, &[0x01], &mut ops), Err(OtaCommandError::InvalidLength));
}

#[test]
fn configuration_and_link_state_survive_writes() {
    let mut p = peripheral();
    let mut ops = Vec::new();
    assert_eq!(p.link_state(), OtaLinkState::Advertising);
    p.process_att_write(0x000A, &[0x01, 0xFF], &mut ops).unwrap();
    let _ = p.process_att_write(0x000A, &[0x07], &mut ops);
    let mut out = [0u8; 32];
    p.take_pending_notify(&mut out);
    assert_eq!(p.adv_power().raw(), 63);
    assert_eq!(p.boot_config(), OtaBootConfig::default());
    assert_eq!(p.link_state(), OtaLinkState::Advertising);
}
