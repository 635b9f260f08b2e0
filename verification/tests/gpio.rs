use tlsr82xx::gpio::{
    pinmux_mode_for, set_function_raw, PinFunction, PinmuxError, PinmuxMode, RawPin,
};
use tlsr82xx::mmio::RegOp;

#[test]
fn pb1_uart_selector_is_slot_01() {
    assert!(matches!(
        pinmux_mode_for(RawPin::try_from_u16(0x0102).unwrap(), PinFunction::Uart),
        Some(PinmuxMode::Selector(0b01))
    ));
}

#[test]
fn rf_alt_default_slot_cases_match_vendor() {
    assert!(matches!(
        pinmux_mode_for(RawPin::try_from_u16(0x0280).unwrap(), PinFunction::TxCyc2Pa),
        Some(PinmuxMode::Selector(0b00))
    ));
    assert!(matches!(
        pinmux_mode_for(RawPin::try_from_u16(0x0301).unwrap(), PinFunction::RxCyc2Lna),
        Some(PinmuxMode::Selector(0b00))
    ));
}

#[test]
fn pa5_usb_is_fixed_no_mux() {
    assert!(matches!(
        pinmux_mode_for(RawPin::try_from_u16(0x0020).unwrap(), PinFunction::Usb),
        Some(PinmuxMode::FixedNoMux)
    ));
}

#[test]
fn unsupported_pair_is_rejected() {
    assert!(pinmux_mode_for(RawPin::try_from_u16(0x0104).unwrap(), PinFunction::Pwm0).is_none());
}

#[test]
fn raw_pin_try_from_u16_validates_input() {
    assert!(RawPin::try_from_u16(0x0104).is_ok());
    assert!(RawPin::try_from_u16(0x0000).is_err());
    assert!(RawPin::try_from_u16(0x0410).is_err());
}

#[test]
fn raw_pin_from_parts_packs_port_and_bit() {
    assert_eq!(RawPin::from_parts(1, 2).as_u16(), 0x0104);
    assert_eq!(RawPin::from_parts(3, 7).as_u16(), 0x0380);
}

#[test]
fn set_function_raw_gpio_sets_function_bit() {
    let mut ops = Vec::new();
    let pin = RawPin::try_from_u16(0x0104).unwrap();
    assert!(set_function_raw(&mut ops, pin, PinFunction::Gpio).is_ok());
    assert_eq!(ops, vec![RegOp::Modify8 { addr: 0x0080_058e, clear: 0, set: 0x04 }]);
}

#[test]
fn set_function_raw_rejects_unsupported_pair_without_writes() {
    let mut ops = Vec::new();
    let pin = RawPin::try_from_u16(0x0104).unwrap();
    let r = set_function_raw(&mut ops, pin, PinFunction::Pwm0);
    assert_eq!(r, Err(PinmuxError::UnsupportedPair { raw_pin: pin, function: PinFunction::Pwm0 }));
    assert!(ops.is_empty());
}
