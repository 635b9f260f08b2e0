use tlsr82xx::radio::Radio;

#[test]
fn rssi_is_the_signed_register_minus_110() {
    let r = Radio::new();
    assert_eq!(r.rssi_dbm_154(50), -60);
    assert_eq!(r.rssi_dbm_154(127), 17);
    assert_eq!(r.rssi_dbm_154(0xF0), -126);
}

#[test]
fn receiving_is_bit_5_of_the_status() {
    let r = Radio::new();
    assert!(r.is_receiving_packet(0x20));
    assert!(r.is_receiving_packet(0xff));
    assert!(!r.is_receiving_packet(0xdf));
}
