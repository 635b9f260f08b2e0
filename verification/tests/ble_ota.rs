use tlsr82xx::ble::ota::{
    align_up, build_ll_att_tx_packet, build_result_notify, build_schedule_fw_size, build_version_rsp,
    channel_enabled, conn_interval_us, pick_data_channel,
};

#[test]
fn command_frames_are_little_endian() {
    assert_eq!(build_version_rsp(0x1234), [0x05, 0xff, 0x34, 0x12]);
    assert_eq!(build_result_notify(6), [0x06, 0xff, 6, 0]);
    assert_eq!(build_schedule_fw_size(0x0102_0304), [0x09, 0xff, 4, 3, 2, 1]);
}

#[test]
fn align_up_rounds_to_the_next_multiple() {
    assert_eq!(align_up(0x1001, 0x1000), 0x2000);
    assert_eq!(align_up(0x2000, 0x1000), 0x2000);
    assert_eq!(align_up(7, 0), 7);
}

#[test]
fn data_channel_follows_the_map() {
    let all = [0xff, 0xff, 0xff, 0xff, 0x1f];
    assert_eq!(pick_data_channel(all, 7, 3), 21);
    let no21 = [0xff, 0xff, 0xdf, 0xff, 0x1f];
    assert!(!channel_enabled(no21, 21));
    assert_eq!(pick_data_channel(no21, 7, 3), 22);
    assert!(!channel_enabled(all, 37));
    assert_eq!(conn_interval_us(24), 30_000);
}

#[test]
fn ll_att_packet_frames_the_pdu() {
    let mut out = [0u8; 32];
    let n = build_ll_att_tx_packet(&[0x02, 0x17, 0x00], &mut out);
    assert_eq!(n, 13);
    assert_eq!(&out[..13], &[9, 0, 0, 0, 2, 7, 3, 0, 4, 0, 0x02, 0x17, 0x00]);
    assert_eq!(build_ll_att_tx_packet(&[], &mut out), 0);
    let mut small = [0u8; 9];
    assert_eq!(build_ll_att_tx_packet(&[1], &mut small), 0);
}
