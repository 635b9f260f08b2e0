use tlsr82xx::mmio::RegOp;
use tlsr82xx::startup::{
    efuse_sys_check, gpio_vref_from_info1, mulsi3, startup_pm_get_32k_tick, xtal_wait_step, EfuseCheck,
    LoadTblCmdSet, PmGlobals, TblCmdSet, XtalWaitStep,
};

#[test]
fn software_multiply_wraps_like_hardware() {
    assert_eq!(mulsi3(7, 6), 42);
    assert_eq!(mulsi3(0x1_0000, 0x1_0000), 0);
    assert_eq!(mulsi3(0xffff_ffff, 2), 0xffff_fffe);
}

#[test]
fn tick_read_accepts_readings_one_apart() {
    assert_eq!(startup_pm_get_32k_tick([0, 0, 1, 0], [0, 0, 1, 1]), Some(0x100));
    assert_eq!(startup_pm_get_32k_tick([0, 0, 1, 0], [0, 0, 1, 0]), Some(0x100));
    assert_eq!(startup_pm_get_32k_tick([0, 0, 1, 0], [0, 0, 1, 5]), None);
}

#[test]
fn efuse_and_vref_decoding() {
    assert_eq!(efuse_sys_check(0x0a, 0), EfuseCheck::PowerDown);
    assert_eq!(efuse_sys_check(0x09, 0xe300_0000), EfuseCheck::Bits { bit_info_1: 3, bit_info_0: 7 });
    assert_eq!(gpio_vref_from_info1(0xc2), Some(0x03f7 + 10));
    assert_eq!(gpio_vref_from_info1(0x42), None);
    assert_eq!(xtal_wait_step(0, 2, true), XtalWaitStep::Ready);
    assert_eq!(xtal_wait_step(1, 2, false), XtalWaitStep::Reboot);
    let g = PmGlobals::new();
    assert_eq!(g.adc_gpio_calib_vref, 1175);
}

#[test]
fn register_table_runs_flagged_entries_in_order() {
    let table = [
        TblCmdSet { adr: 0x0060, dat: 0x12, cmd: 0x43 },
        TblCmdSet { adr: 0x0005, dat: 0x34, cmd: 0x48 },
        TblCmdSet { adr: 0x0001, dat: 0x02, cmd: 0x47 },
        TblCmdSet { adr: 0x0070, dat: 0xff, cmd: 0x03 },
        TblCmdSet { adr: 0x0070, dat: 0xff, cmd: 0x41 },
    ];
    let mut ops = Vec::new();
    assert_eq!(LoadTblCmdSet(&mut ops, &table, 5), 5);
    assert_eq!(
        ops,
        vec![
            RegOp::Write8 { addr: 0x0080_0060, value: 0x12 },
            RegOp::AnalogWrite { reg: 0x05, value: 0x34 },
            RegOp::DelayUs { us: 0x102 },
        ]
    );
    let mut none = Vec::new();
    assert_eq!(LoadTblCmdSet(&mut none, &table, 0), 0);
    assert_eq!(LoadTblCmdSet(&mut none, &table, -3), 0);
    assert!(none.is_empty());
}
