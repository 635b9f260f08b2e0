//! 2.4 GHz radio: channel, power, access code and CRC programming, scheduled
//! RX/TX commands and the IRQ flag set.
//!
//! Each method appends the register accesses it stands for to a program
//! (`ops`) that the bus executor applies in order.

use vstd::prelude::*;
use crate::mmio::RegOp;
use crate::regs::{
    REG_DMA2_ADDR, REG_DMA2_ADDR_HI, REG_DMA3_ADDR, REG_DMA3_ADDR_HI, REG_DMA_TX_RDY0, REG_PLL_RX_FINE_DIV_TUNE,
    REG_RF_ACCESS_CODE, REG_RF_CHANNEL, REG_RF_CRC, REG_RF_IRQ_MASK, REG_RF_IRQ_STATUS, REG_RF_LL_CTRL_0,
    REG_RF_LL_CTRL_2, REG_RF_LL_CTRL_3, REG_RF_MODE_CONTROL, REG_RF_POWER, REG_RF_RX_MODE, REG_RF_SCHED_TICK,
    REG_RF_SN, REG_RF_TX_SETTLE, REG_RST1, FLD_RST1_ZB,
};

verus! {

pub const RF_TRX_MODE: u8 = 0xe0;
pub const RF_TRX_OFF: u8 = 0x45;
pub const DEFAULT_TX_SETTLE_US: u16 = 113;
pub const RF_CMD_BRX: u8 = 0x82;
pub const RF_CMD_SRX2TX: u8 = 0x85;
pub const RF_CMD_STX2RX: u8 = 0x87;
pub const FLD_DMA_CHN_RF_TX: u8 = 0x08;
pub const BLE_ADV_ACCESS_CODE: u32 = 0xd6be898e;
pub const BLE_ADV_CRC_INIT: u32 = 0x0055_5555;
pub const REG_RF_BLE_CHANNEL_NUM: u32 = 0x0080_040d;
pub const REG_RF_CHN_SET_L: u32 = 0x0080_1244;
pub const REG_RF_CHN_SET_H: u32 = 0x0080_1245;
pub const REG_RF_CHN_BAND: u32 = 0x0080_1228;

#[derive(Clone, Copy, Debug, PartialEq, Eq, Structural)]
pub enum RadioMode {
    Ble1M,
    Zigbee250K,
}

#[derive(Clone, Copy, Debug, PartialEq, Eq, Structural)]
pub enum RadioError {
    EmptyRxBuffer,
    UnalignedRxBuffer,
    EmptyTxBuffer,
    UnalignedTxBuffer,
    InvalidBleChannel(u8),
    InvalidZigbeeChannel(u8),
}

#[derive(Clone, Copy, Debug, PartialEq, Eq, Structural)]
pub enum RadioChannel {
    Ble(u8),
    Zigbee(u8),
}

/// Transmit power register value; bit 7 selects the low-power amplifier path.
#[derive(Clone, Copy, Debug, PartialEq, Eq, Structural)]
pub struct RadioPower(pub u8);

impl RadioPower {
    pub const PLUS_10P46_DBM: u8 = 0x3f;
    pub const PLUS_10P29_DBM: u8 = 0x3d;
    pub const PLUS_10P01_DBM: u8 = 0x3a;
    pub const PLUS_9P81_DBM: u8 = 0x38;
    pub const PLUS_9P48_DBM: u8 = 0x35;
    pub const PLUS_9P24_DBM: u8 = 0x33;
    pub const PLUS_8P97_DBM: u8 = 0x31;
    pub const PLUS_8P73_DBM: u8 = 0x2f;
    pub const PLUS_8P44_DBM: u8 = 0x2d;
    pub const PLUS_8P13_DBM: u8 = 0x2b;
    pub const PLUS_7P79_DBM: u8 = 0x29;
    pub const PLUS_7P41_DBM: u8 = 0x27;
    pub const PLUS_7P02_DBM: u8 = 0x25;
    pub const PLUS_6P60_DBM: u8 = 0x23;
    pub const PLUS_6P14_DBM: u8 = 0x21;
    pub const PLUS_5P65_DBM: u8 = 0x1f;
    pub const PLUS_5P13_DBM: u8 = 0x1d;
    pub const PLUS_4P57_DBM: u8 = 0x1b;
    pub const PLUS_3P94_DBM: u8 = 0x19;
    pub const PLUS_3P23_DBM: u8 = 0x17;
    pub const PLUS_3P01_DBM: u8 = 0xbf;
    pub const PLUS_2P81_DBM: u8 = 0xbd;
    pub const PLUS_2P61_DBM: u8 = 0xbb;
    pub const PLUS_2P39_DBM: u8 = 0xb9;
    pub const PLUS_1P99_DBM: u8 = 0xb6;
    pub const PLUS_1P73_DBM: u8 = 0xb4;
    pub const PLUS_1P45_DBM: u8 = 0xb2;
    pub const PLUS_1P17_DBM: u8 = 0xb0;
    pub const PLUS_0P90_DBM: u8 = 0xae;
    pub const PLUS_0P58_DBM: u8 = 0xac;
    pub const PLUS_0P04_DBM: u8 = 0xa9;
    pub const MINUS_0P14_DBM: u8 = 0xa8;
    pub const MINUS_0P97_DBM: u8 = 0xa4;
    pub const MINUS_1P42_DBM: u8 = 0xa2;
    pub const MINUS_1P89_DBM: u8 = 0xa0;
    pub const MINUS_2P48_DBM: u8 = 0x9e;
    pub const MINUS_3P03_DBM: u8 = 0x9c;
    pub const MINUS_3P61_DBM: u8 = 0x9a;
    pub const MINUS_4P26_DBM: u8 = 0x98;
    pub const MINUS_5P03_DBM: u8 = 0x96;
    pub const MINUS_5P81_DBM: u8 = 0x94;
    pub const MINUS_6P67_DBM: u8 = 0x92;
    pub const MINUS_7P65_DBM: u8 = 0x90;
    pub const MINUS_8P65_DBM: u8 = 0x8e;
    pub const MINUS_9P89_DBM: u8 = 0x8c;
    pub const MINUS_11P40_DBM: u8 = 0x8a;
    pub const MINUS_13P29_DBM: u8 = 0x88;
    pub const MINUS_15P88_DBM: u8 = 0x86;
    pub const MINUS_19P27_DBM: u8 = 0x84;
    pub const MINUS_25P18_DBM: u8 = 0x82;
    pub const MINUS_30_DBM: u8 = 0xff;
    pub const MINUS_50_DBM: u8 = 0x80;

    pub fn raw(self) -> (r: u8)
        ensures
            r == self.0,
    {
        self.0
    }
}

#[derive(Clone, Copy, Debug, PartialEq, Eq)]
pub struct BleConfig {
    pub channel: u8,
    pub access_code: u32,
    pub crc: [u8; 3],
    pub power: RadioPower,
}

impl BleConfig {
    /// Advertising channel settings: the advertising access address and CRC
    /// seed 0x555555 at +3.23 dBm.
    pub fn advertising(channel: u8) -> (c: Self)
        ensures
            c.channel == channel,
            c.access_code == 0x8e89_bed6,
            c.crc@ == seq![0x55u8, 0x55u8, 0x55u8],
            c.power == RadioPower(RadioPower::PLUS_3P23_DBM),
    {
        let c = BleConfig { channel, access_code: 0x8e89_bed6, crc: [0x55, 0x55, 0x55], power: RadioPower(RadioPower::PLUS_3P23_DBM) };
        assert(c.crc@ =~= seq![0x55u8, 0x55u8, 0x55u8]);
        c
    }

    /// Data channel settings of a connection at +3.23 dBm.
    pub fn data(channel: u8, access_code: u32, crc: [u8; 3]) -> (c: Self)
        ensures
            c == (BleConfig { channel, access_code, crc, power: RadioPower(RadioPower::PLUS_3P23_DBM) }),
    {
        BleConfig { channel, access_code, crc, power: RadioPower(RadioPower::PLUS_3P23_DBM) }
    }

    pub fn with_power(self, power: RadioPower) -> (c: Self)
        ensures
            c == (BleConfig { power, ..self }),
    {
        BleConfig { power, ..self }
    }
}

#[derive(Clone, Copy, Debug, PartialEq, Eq, Structural)]
pub struct ZigbeeConfig {
    pub channel: u8,
    pub power: RadioPower,
}

impl ZigbeeConfig {
    pub fn new(channel: u8) -> (c: Self)
        ensures
            c == (ZigbeeConfig { channel, power: RadioPower(RadioPower::PLUS_3P23_DBM) }),
    {
        ZigbeeConfig { channel, power: RadioPower(RadioPower::PLUS_3P23_DBM) }
    }

    pub fn with_power(self, power: RadioPower) -> (c: Self)
        ensures
            c == (ZigbeeConfig { power, ..self }),
    {
        ZigbeeConfig { power, ..self }
    }
}

#[derive(Clone, Copy, Debug, PartialEq, Eq)]
pub enum RadioConfig {
    Ble(BleConfig),
    Zigbee(ZigbeeConfig),
}

impl RadioConfig {
    pub fn mode(self) -> (m: RadioMode)
        ensures
            m == (match self {
                RadioConfig::Ble(_) => RadioMode::Ble1M,
                RadioConfig::Zigbee(_) => RadioMode::Zigbee250K,
            }),
    {
        match self {
            RadioConfig::Ble(_) => RadioMode::Ble1M,
            RadioConfig::Zigbee(_) => RadioMode::Zigbee250K,
        }
    }
}

/// Radio interrupt flags (status and mask registers share the layout).
#[derive(Clone, Copy, Debug, PartialEq, Eq, Structural)]
pub struct IrqFlags(pub u16);

impl IrqFlags {
    pub const RX: u16 = 0x0001;
    pub const TX: u16 = 0x0002;
    pub const RX_TIMEOUT: u16 = 0x0004;
    pub const RX_CRC_2: u16 = 0x0010;
    pub const CMD_DONE: u16 = 0x0020;
    pub const FSM_TIMEOUT: u16 = 0x0040;
    pub const RETRY_HIT: u16 = 0x0080;
    pub const TX_DS: u16 = 0x0100;
    pub const RX_DR: u16 = 0x0200;
    pub const FIRST_TIMEOUT: u16 = 0x0400;
    pub const INVALID_PID: u16 = 0x0800;
    pub const STX_TIMEOUT: u16 = 0x1000;
    pub const ALL: u16 = 0x1fff;

    pub fn bits(self) -> (r: u16)
        ensures
            r == self.0,
    {
        self.0
    }

    /// Whether every flag of `other` is set in `self`.
    pub fn contains(self, other: Self) -> (b: bool)
        ensures
            b == ((self.0 & other.0) == other.0),
    {
        (self.0 & other.0) == other.0
    }
}


/// The channel-synthesizer setting of BLE channel `channel`: the advertising
/// channels 37, 38 and 39 sit at 2402, 2426 and 2480 MHz, data channels
/// 0..=10 at 2404 + 2k MHz and 11..=36 one slot further up.
pub open spec fn ble_channel_set(channel: u8) -> u16 {
    if channel == 37 {
        0x0962
    } else if channel == 38 {
        0x097a
    } else if channel == 39 {
        0x09b0
    } else if channel <= 10 {
        (0x0960 + channel + 2) as u16
    } else {
        (0x0960 + channel + 3) as u16
    }
}

/// The band-select bits for synthesizer setting `set`.
pub open spec fn ble_band_bits_spec(set: u16) -> u8 {
    if set > 0x09be {
        0x04
    } else if set > 0x09a0 {
        0x08
    } else if set > 0x0982 {
        0x0c
    } else if set > 0x0964 {
        0x10
    } else if set > 0x094b {
        0x14
    } else {
        0x18
    }
}

pub open spec fn ble_channel_band(channel: u8) -> u8 {
    if channel == 37 {
        0x18
    } else if channel == 38 {
        0x14
    } else if channel == 39 {
        0x0c
    } else {
        ble_band_bits_spec(ble_channel_set(channel))
    }
}

pub open spec fn ble_channel_ops(channel: u8) -> Seq<RegOp> {
    let set = ble_channel_set(channel);
    let band = ble_channel_band(channel);
    seq![
        RegOp::Write8 { addr: REG_RF_BLE_CHANNEL_NUM, value: channel },
        RegOp::Write8 { addr: REG_RF_CHN_SET_L, value: ((set << 2u16) as u8) | 0x01u8 },
        RegOp::Modify8 { addr: REG_RF_CHN_SET_H, clear: 0x3f, set: ((set >> 6u16) as u8) & 0x3fu8 },
        RegOp::Modify8 { addr: REG_RF_CHN_BAND, clear: 0x3c, set: band & 0x3cu8 },
    ]
}

/// Zigbee channel `channel` (11..=26) sits at 2405 + 5 (channel - 11) MHz.
pub open spec fn zigbee_channel_ops(channel: u8) -> Seq<RegOp> {
    seq![
        RegOp::Write8 { addr: REG_RF_CHANNEL, value: ((channel - 10) * 5) as u8 },
        RegOp::AnalogWrite { reg: 0x06, value: 0x00 },
        RegOp::Write8 { addr: REG_RF_LL_CTRL_3, value: 0x29 },
        RegOp::Write8 { addr: REG_RF_RX_MODE, value: 0x00 },
        RegOp::Write8 { addr: REG_RF_LL_CTRL_0, value: RF_TRX_OFF },
        RegOp::Write16 { addr: REG_PLL_RX_FINE_DIV_TUNE, value: (2405 + (channel - 11) * 5) as u16 },
    ]
}

pub open spec fn power_op(power: RadioPower) -> RegOp {
    RegOp::Write8 { addr: REG_RF_POWER, value: power.0 }
}

pub open spec fn access_code_op(access_code: u32) -> RegOp {
    RegOp::Write32 { addr: REG_RF_ACCESS_CODE, value: access_code }
}

pub open spec fn crc_init_op(crc_init: u32) -> RegOp {
    RegOp::Write32 { addr: REG_RF_CRC, value: crc_init & 0x00ff_ffff }
}

/// The access code as the hardware holds it: byte-reversed.
pub open spec fn swap_bytes32(v: u32) -> u32 {
    ((v % 256) * 0x0100_0000 + ((v / 256) % 256) * 0x0001_0000 + ((v / 65536) % 256) * 256 + v / 0x0100_0000) as u32
}

pub open spec fn crc_word(crc: [u8; 3]) -> u32 {
    (crc[0] + 256 * crc[1] + 65536 * crc[2]) as u32
}

pub open spec fn ble_config_ops(config: BleConfig) -> Seq<RegOp> {
    seq![power_op(config.power)] + ble_channel_ops(config.channel) + seq![
        access_code_op(swap_bytes32(config.access_code)),
        crc_init_op(crc_word(config.crc)),
    ]
}

/// Settings of [`BleConfig::advertising`] on `channel`.
pub open spec fn ble_advertising_config_ops(channel: u8) -> Seq<RegOp> {
    seq![power_op(RadioPower(RadioPower::PLUS_3P23_DBM))] + ble_channel_ops(channel) + seq![
        access_code_op(swap_bytes32(0x8e89_bed6)),
        crc_init_op(0x0055_5555),
    ]
}

pub open spec fn zigbee_config_ops(config: ZigbeeConfig) -> Seq<RegOp> {
    seq![power_op(config.power)] + zigbee_channel_ops(config.channel)
}

pub open spec fn buffer_ops(addr_reg: u32, hi_reg: u32, addr: usize) -> Seq<RegOp> {
    seq![
        RegOp::Write16 { addr: addr_reg, value: (addr % 0x1_0000) as u16 },
        RegOp::Write8 { addr: hi_reg, value: ((addr / 0x1_0000) % 16) as u8 },
    ]
}

pub open spec fn scheduled_command_ops(command: u8, tick: u32) -> Seq<RegOp> {
    seq![
        RegOp::Write32 { addr: REG_RF_SCHED_TICK, value: tick },
        RegOp::Modify8 { addr: REG_RF_LL_CTRL_3, clear: 0, set: 0x04 },
        RegOp::Write8 { addr: REG_RF_MODE_CONTROL, value: command },
    ]
}

pub open spec fn immediate_command_ops(command: u8) -> Seq<RegOp> {
    seq![
        RegOp::Modify8 { addr: REG_RF_LL_CTRL_3, clear: 0x04, set: 0 },
        RegOp::Write8 { addr: REG_RF_MODE_CONTROL, value: command },
    ]
}

/// Why a DMA buffer at `addr` of `len` bytes cannot be used, if it cannot.
pub open spec fn tx_buffer_error(addr: usize, len: usize) -> Option<RadioError> {
    if len == 0 {
        Some(RadioError::EmptyTxBuffer)
    } else if addr % 4 != 0 {
        Some(RadioError::UnalignedTxBuffer)
    } else {
        None
    }
}

pub open spec fn rx_buffer_error(addr: usize, len: usize) -> Option<RadioError> {
    if len == 0 {
        Some(RadioError::EmptyRxBuffer)
    } else if addr % 4 != 0 {
        Some(RadioError::UnalignedRxBuffer)
    } else {
        None
    }
}

/// A byte read as a two's complement number.
pub open spec fn signed_byte(raw: u8) -> int {
    if raw < 128 { raw as int } else { raw - 256 }
}

/// The writes that stop any transmission or reception.
pub open spec fn tx_rx_off_ops() -> Seq<RegOp> {
    seq![
        RegOp::Write8 { addr: REG_RF_LL_CTRL_3, value: 0x29 },
        RegOp::Write8 { addr: REG_RF_RX_MODE, value: RF_TRX_MODE },
        RegOp::Write8 { addr: REG_RF_LL_CTRL_0, value: RF_TRX_OFF },
    ]
}

pub open spec fn base_init_ops() -> Seq<RegOp> {
    seq![
        RegOp::Write8 { addr: REG_RST1, value: FLD_RST1_ZB },
        RegOp::Write8 { addr: REG_RST1, value: 0 },
        RegOp::Write8 { addr: REG_RF_MODE_CONTROL, value: 0x80 },
        RegOp::Write8 { addr: REG_RF_LL_CTRL_3, value: 0x29 },
        RegOp::Write8 { addr: REG_RF_RX_MODE, value: RF_TRX_MODE },
        RegOp::Write8 { addr: REG_RF_LL_CTRL_0, value: RF_TRX_OFF },
        RegOp::Write8 { addr: REG_RF_SN, value: 0x01 },
        RegOp::Write16 { addr: REG_RF_IRQ_STATUS, value: 0x1fff },
        RegOp::Modify16 { addr: REG_RF_IRQ_MASK, clear: 0x1fff, set: 0 },
        RegOp::Write8 { addr: REG_RF_LL_CTRL_2, value: 0xf0 },
        RegOp::Write16 { addr: REG_RF_TX_SETTLE, value: (DEFAULT_TX_SETTLE_US - 1) as u16 },
    ]
}

/// The vendor BLE 1M PHY bring-up writes.
pub open spec fn ble_phy_init_ops() -> Seq<RegOp> {
    seq![
        RegOp::Write8 { addr: 0x0080_12d2, value: 0x9b },
        RegOp::Write8 { addr: 0x0080_12d3, value: 0x19 },
        RegOp::Write8 { addr: 0x0080_127b, value: 0x0e },
        RegOp::Write8 { addr: 0x0080_0430, value: 0x36 },
        RegOp::Write8 { addr: 0x0080_1220, value: 0x16 },
        RegOp::Write8 { addr: 0x0080_1221, value: 0x0a },
        RegOp::Write8 { addr: 0x0080_1222, value: 0x20 },
        RegOp::Write8 { addr: 0x0080_1223, value: 0x23 },
        RegOp::Write8 { addr: 0x0080_124a, value: 0x0e },
        RegOp::Write8 { addr: 0x0080_124b, value: 0x09 },
        RegOp::Write8 { addr: 0x0080_1276, value: 0x45 },
        RegOp::Write8 { addr: 0x0080_1277, value: 0x7b },
        RegOp::Write8 { addr: 0x0080_1279, value: 0x08 },
        RegOp::Write8 { addr: 0x0080_1273, value: 0x01 },
        RegOp::Write8 { addr: 0x0080_1236, value: 0xb7 },
        RegOp::Write8 { addr: 0x0080_1237, value: 0x8e },
        RegOp::Write8 { addr: 0x0080_1238, value: 0xc4 },
        RegOp::Write8 { addr: 0x0080_1239, value: 0x71 },
        RegOp::Write8 { addr: 0x0080_0401, value: 0x01 },
        RegOp::Write8 { addr: 0x0080_0402, value: 0x46 },
        RegOp::Write8 { addr: 0x0080_0404, value: 0xf5 },
        RegOp::Write8 { addr: 0x0080_0405, value: 0x04 },
        RegOp::Write8 { addr: 0x0080_0420, value: 0x1e },
        RegOp::Write32 { addr: 0x0080_0460, value: 0x5f4f4434 },
        RegOp::Write16 { addr: 0x0080_0464, value: 0x766b },
        RegOp::Write8 { addr: 0x0080_0f06, value: 0x00 },
        RegOp::Write8 { addr: 0x0080_0f0c, value: 0x50 },
        RegOp::Write8 { addr: 0x0080_0f0e, value: 0x00 },
        RegOp::Write8 { addr: 0x0080_0f10, value: 0x00 },
    ]
}


/// Handle on the radio baseband.
#[derive(Debug)]
pub struct Radio;

impl Radio {
    pub fn new() -> (r: Self) {
        Radio
    }

    pub fn reset_baseband(&mut self, ops: &mut Vec<RegOp>)
        ensures
            final(ops)@ == old(ops)@ + seq![
                RegOp::Write8 { addr: REG_RST1, value: FLD_RST1_ZB },
                RegOp::Write8 { addr: REG_RST1, value: 0 },
            ],
    {
        ops.push(RegOp::Write8 { addr: REG_RST1, value: FLD_RST1_ZB });
        ops.push(RegOp::Write8 { addr: REG_RST1, value: 0 });
    }

    pub fn reset_sn_nesn(&mut self, ops: &mut Vec<RegOp>)
        ensures
            final(ops)@ == old(ops)@.push(RegOp::Write8 { addr: REG_RF_SN, value: 0x01 }),
    {
        ops.push(RegOp::Write8 { addr: REG_RF_SN, value: 0x01 });
    }

    pub fn reset_sn(&mut self, ops: &mut Vec<RegOp>)
        ensures
            final(ops)@ == old(ops)@ + seq![
                RegOp::Write8 { addr: REG_RF_SN, value: 0x3f },
                RegOp::Write8 { addr: REG_RF_SN, value: 0x00 },
            ],
    {
        ops.push(RegOp::Write8 { addr: REG_RF_SN, value: 0x3f });
        ops.push(RegOp::Write8 { addr: REG_RF_SN, value: 0x00 });
    }

    pub fn set_tx_rx_off(&mut self, ops: &mut Vec<RegOp>)
        ensures
            final(ops)@ == old(ops)@ + tx_rx_off_ops(),
    {
        let ghost start = ops@;
        ops.push(RegOp::Write8 { addr: REG_RF_LL_CTRL_3, value: 0x29 });
        ops.push(RegOp::Write8 { addr: REG_RF_RX_MODE, value: RF_TRX_MODE });
        ops.push(RegOp::Write8 { addr: REG_RF_LL_CTRL_0, value: RF_TRX_OFF });
        assert(ops@ =~= start + tx_rx_off_ops());
    }

    pub fn set_tx_rx_off_auto_mode(&mut self, ops: &mut Vec<RegOp>)
        ensures
            final(ops)@ == old(ops)@.push(RegOp::Write8 { addr: REG_RF_MODE_CONTROL, value: 0x80 }),
    {
        ops.push(RegOp::Write8 { addr: REG_RF_MODE_CONTROL, value: 0x80 });
    }

    pub fn set_tx_mode(&mut self, ops: &mut Vec<RegOp>)
        ensures
            final(ops)@ == old(ops)@.push(RegOp::Write8 { addr: REG_RF_LL_CTRL_0, value: 0x55 }),
    {
        ops.push(RegOp::Write8 { addr: REG_RF_LL_CTRL_0, value: 0x55 });
    }

    pub fn set_rx_mode(&mut self, ops: &mut Vec<RegOp>)
        ensures
            final(ops)@ == old(ops)@ + seq![
                RegOp::Write8 { addr: REG_RF_RX_MODE, value: 0xe1 },
                RegOp::Write8 { addr: REG_RF_LL_CTRL_0, value: 0x65 },
            ],
    {
        ops.push(RegOp::Write8 { addr: REG_RF_RX_MODE, value: 0xe1 });
        ops.push(RegOp::Write8 { addr: REG_RF_LL_CTRL_0, value: 0x65 });
    }

    pub fn set_tx_pipe(&mut self, ops: &mut Vec<RegOp>, pipe: u8)
        ensures
            final(ops)@ == old(ops)@.push(RegOp::Write8 { addr: REG_RF_LL_CTRL_2, value: (0xf0 + pipe % 16) as u8 }),
    {
        ops.push(RegOp::Write8 { addr: REG_RF_LL_CTRL_2, value: 0xf0 + pipe % 16 });
    }

    /// Programs the TX settle time; the register holds `settle_us - 1`
    /// (0 stays 0) in 12 bits.
    pub fn set_tx_settle_us(&mut self, ops: &mut Vec<RegOp>, settle_us: u16)
        ensures
            final(ops)@ == old(ops)@.push(RegOp::Write16 {
                addr: REG_RF_TX_SETTLE,
                value: (if settle_us == 0 { 0 } else { (settle_us - 1) % 4096 }) as u16,
            }),
    {
        let hw = if settle_us == 0 { 0 } else { (settle_us - 1) % 4096 };
        ops.push(RegOp::Write16 { addr: REG_RF_TX_SETTLE, value: hw });
    }

    pub fn set_rx_buffer(&mut self, ops: &mut Vec<RegOp>, addr: usize)
        ensures
            final(ops)@ == old(ops)@ + buffer_ops(REG_DMA2_ADDR, REG_DMA2_ADDR_HI, addr),
    {
        ops.push(RegOp::Write16 { addr: REG_DMA2_ADDR, value: (addr % 0x1_0000) as u16 });
        ops.push(RegOp::Write8 { addr: REG_DMA2_ADDR_HI, value: ((addr / 0x1_0000) % 16) as u8 });
    }

    /// Points the RX DMA at the buffer at `addr` of `len` bytes, which must be
    /// non-empty and word aligned.
    pub fn configure_rx_buffer(&mut self, ops: &mut Vec<RegOp>, addr: usize, len: usize) -> (r: Result<(), RadioError>)
        ensures
            r matches Err(e) ==> rx_buffer_error(addr, len) == Some(e) && final(ops)@ == old(ops)@,
            r is Ok ==> rx_buffer_error(addr, len) is None
                && final(ops)@ == old(ops)@ + buffer_ops(REG_DMA2_ADDR, REG_DMA2_ADDR_HI, addr),
    {
        if len == 0 {
            return Err(RadioError::EmptyRxBuffer);
        }
        if addr % 4 != 0 {
            return Err(RadioError::UnalignedRxBuffer);
        }
        self.set_rx_buffer(ops, addr);
        Ok(())
    }

    pub fn set_tx_buffer(&mut self, ops: &mut Vec<RegOp>, addr: usize)
        ensures
            final(ops)@ == old(ops)@ + buffer_ops(REG_DMA3_ADDR, REG_DMA3_ADDR_HI, addr),
    {
        ops.push(RegOp::Write16 { addr: REG_DMA3_ADDR, value: (addr % 0x1_0000) as u16 });
        ops.push(RegOp::Write8 { addr: REG_DMA3_ADDR_HI, value: ((addr / 0x1_0000) % 16) as u8 });
    }

    /// Points the TX DMA at the packet at `addr` of `len` bytes, which must be
    /// non-empty and word aligned.
    pub fn configure_tx_buffer(&mut self, ops: &mut Vec<RegOp>, addr: usize, len: usize) -> (r: Result<(), RadioError>)
        ensures
            r matches Err(e) ==> tx_buffer_error(addr, len) == Some(e) && final(ops)@ == old(ops)@,
            r is Ok ==> tx_buffer_error(addr, len) is None
                && final(ops)@ == old(ops)@ + buffer_ops(REG_DMA3_ADDR, REG_DMA3_ADDR_HI, addr),
    {
        if len == 0 {
            return Err(RadioError::EmptyTxBuffer);
        }
        if addr % 4 != 0 {
            return Err(RadioError::UnalignedTxBuffer);
        }
        self.set_tx_buffer(ops, addr);
        Ok(())
    }

    pub fn set_power_raw(&mut self, ops: &mut Vec<RegOp>, value: u8)
        ensures
            final(ops)@ == old(ops)@.push(power_op(RadioPower(value))),
    {
        ops.push(RegOp::Write8 { addr: REG_RF_POWER, value });
    }

    pub fn set_power(&mut self, ops: &mut Vec<RegOp>, power: RadioPower)
        ensures
            final(ops)@ == old(ops)@.push(power_op(power)),
    {
        self.set_power_raw(ops, power.raw());
    }

    pub fn set_channel_raw(&mut self, ops: &mut Vec<RegOp>, channel: u8)
        ensures
            final(ops)@ == old(ops)@.push(RegOp::Write8 { addr: REG_RF_CHANNEL, value: channel }),
    {
        ops.push(RegOp::Write8 { addr: REG_RF_CHANNEL, value: channel });
    }

    pub fn set_access_code(&mut self, ops: &mut Vec<RegOp>, access_code: u32)
        ensures
            final(ops)@ == old(ops)@.push(access_code_op(access_code)),
    {
        ops.push(RegOp::Write32 { addr: REG_RF_ACCESS_CODE, value: access_code });
    }

    pub fn set_crc_init(&mut self, ops: &mut Vec<RegOp>, crc_init: u32)
        ensures
            final(ops)@ == old(ops)@.push(crc_init_op(crc_init)),
    {
        ops.push(RegOp::Write32 { addr: REG_RF_CRC, value: crc_init & 0x00ff_ffff });
    }

    pub fn set_ble_advertising_access_code(&mut self, ops: &mut Vec<RegOp>)
        ensures
            final(ops)@ == old(ops)@.push(access_code_op(BLE_ADV_ACCESS_CODE)),
    {
        self.set_access_code(ops, BLE_ADV_ACCESS_CODE);
    }

    /// Programs a connection access address (the register takes it
    /// byte-reversed).
    pub fn set_ble_access_code(&mut self, ops: &mut Vec<RegOp>, access_code: u32)
        ensures
            final(ops)@ == old(ops)@.push(access_code_op(swap_bytes32(access_code))),
    {
        let b0 = access_code % 256;
        let b1 = (access_code / 256) % 256;
        let b2 = (access_code / 65536) % 256;
        let b3 = access_code / 0x0100_0000;
        let swapped = b0 * 0x0100_0000 + b1 * 0x0001_0000 + b2 * 256 + b3;
        self.set_access_code(ops, swapped);
    }

    pub fn set_ble_advertising_crc(&mut self, ops: &mut Vec<RegOp>)
        ensures
            final(ops)@ == old(ops)@.push(crc_init_op(BLE_ADV_CRC_INIT)),
    {
        self.set_crc_init(ops, BLE_ADV_CRC_INIT);
    }

    pub fn set_ble_crc(&mut self, ops: &mut Vec<RegOp>, crc: [u8; 3])
        ensures
            final(ops)@ == old(ops)@.push(crc_init_op(crc_word(crc))),
    {
        self.set_crc_init(ops, (crc[0] as u32) + (crc[1] as u32) * 256 + (crc[2] as u32) * 65536);
    }

    pub fn set_channel(&mut self, ops: &mut Vec<RegOp>, channel: RadioChannel) -> (r: Result<(), RadioError>)
        ensures
            match channel {
                RadioChannel::Ble(c) => if c > 39 {
                    r == Err::<(), RadioError>(RadioError::InvalidBleChannel(c)) && final(ops)@ == old(ops)@
                } else {
                    r is Ok && final(ops)@ == old(ops)@ + ble_channel_ops(c)
                },
                RadioChannel::Zigbee(c) => if c < 11 || c > 26 {
                    r == Err::<(), RadioError>(RadioError::InvalidZigbeeChannel(c)) && final(ops)@ == old(ops)@
                } else {
                    r is Ok && final(ops)@ == old(ops)@ + zigbee_channel_ops(c)
                },
            },
    {
        match channel {
            RadioChannel::Ble(channel) => self.set_ble_channel(ops, channel),
            RadioChannel::Zigbee(channel) => self.set_zigbee_channel(ops, channel),
        }
    }

    /// Tunes to BLE channel `channel` (0..=39).
    pub fn set_ble_channel(&mut self, ops: &mut Vec<RegOp>, channel: u8) -> (r: Result<(), RadioError>)
        ensures
            channel > 39 ==> r == Err::<(), RadioError>(RadioError::InvalidBleChannel(channel)) && final(ops)@ == old(ops)@,
            channel <= 39 ==> r is Ok && final(ops)@ == old(ops)@ + ble_channel_ops(channel),
    {
        if channel > 39 {
            return Err(RadioError::InvalidBleChannel(channel));
        }
        let ghost start = ops@;
        ops.push(RegOp::Write8 { addr: REG_RF_BLE_CHANNEL_NUM, value: channel });
        let (set, band): (u16, u8) = if channel == 37 {
            (0x0962, 0x18)
        } else if channel == 38 {
            (0x097a, 0x14)
        } else if channel == 39 {
            (0x09b0, 0x0c)
        } else if channel <= 10 {
            let set = 0x0960u16 + (channel as u16 + 2);
            (set, Self::ble_band_bits(set))
        } else {
            let set = 0x0960u16 + (channel as u16 + 3);
            (set, Self::ble_band_bits(set))
        };
        assert(set == ble_channel_set(channel) && band == ble_channel_band(channel));
        self.apply_ble_channel_set(ops, set, band);
        assert(ops@ =~= start + ble_channel_ops(channel));
        Ok(())
    }

    fn ble_band_bits(set: u16) -> (b: u8)
        ensures
            b == ble_band_bits_spec(set),
    {
        if set > 0x09be {
            0x04
        } else if set > 0x09a0 {
            0x08
        } else if set > 0x0982 {
            0x0c
        } else if set > 0x0964 {
            0x10
        } else if set > 0x094b {
            0x14
        } else {
            0x18
        }
    }

    fn apply_ble_channel_set(&mut self, ops: &mut Vec<RegOp>, set: u16, band: u8)
        ensures
            final(ops)@ == old(ops)@ + seq![
                RegOp::Write8 { addr: REG_RF_CHN_SET_L, value: ((set << 2u16) as u8) | 0x01u8 },
                RegOp::Modify8 { addr: REG_RF_CHN_SET_H, clear: 0x3f, set: ((set >> 6u16) as u8) & 0x3fu8 },
                RegOp::Modify8 { addr: REG_RF_CHN_BAND, clear: 0x3c, set: band & 0x3cu8 },
            ],
    {
        ops.push(RegOp::Write8 { addr: REG_RF_CHN_SET_L, value: ((set << 2u16) as u8) | 0x01u8 });
        ops.push(RegOp::Modify8 { addr: REG_RF_CHN_SET_H, clear: 0x3f, set: ((set >> 6u16) as u8) & 0x3fu8 });
        ops.push(RegOp::Modify8 { addr: REG_RF_CHN_BAND, clear: 0x3c, set: band & 0x3cu8 });
    }

    /// Tunes to Zigbee channel `channel` (11..=26).
    pub fn set_zigbee_channel(&mut self, ops: &mut Vec<RegOp>, channel: u8) -> (r: Result<(), RadioError>)
        ensures
            (channel < 11 || channel > 26) ==> r == Err::<(), RadioError>(RadioError::InvalidZigbeeChannel(channel))
                && final(ops)@ == old(ops)@,
            (11 <= channel <= 26) ==> r is Ok && final(ops)@ == old(ops)@ + zigbee_channel_ops(channel),
    {
        if channel < 11 || channel > 26 {
            return Err(RadioError::InvalidZigbeeChannel(channel));
        }
        let ghost start = ops@;
        let raw = (channel - 10) * 5;
        let pll_freq_mhz = 2405 + ((channel as u16) - 11) * 5;
        ops.push(RegOp::Write8 { addr: REG_RF_CHANNEL, value: raw });
        ops.push(RegOp::AnalogWrite { reg: 0x06, value: 0x00 });
        ops.push(RegOp::Write8 { addr: REG_RF_LL_CTRL_3, value: 0x29 });
        ops.push(RegOp::Write8 { addr: REG_RF_RX_MODE, value: 0x00 });
        ops.push(RegOp::Write8 { addr: REG_RF_LL_CTRL_0, value: RF_TRX_OFF });
        ops.push(RegOp::Write16 { addr: REG_PLL_RX_FINE_DIV_TUNE, value: pll_freq_mhz });
        assert(ops@ =~= start + zigbee_channel_ops(channel));
        Ok(())
    }

    pub fn set_schedule_tick(&mut self, ops: &mut Vec<RegOp>, tick: u32)
        ensures
            final(ops)@ == old(ops)@.push(RegOp::Write32 { addr: REG_RF_SCHED_TICK, value: tick }),
    {
        ops.push(RegOp::Write32 { addr: REG_RF_SCHED_TICK, value: tick });
    }

    fn enable_scheduled_command(&mut self, ops: &mut Vec<RegOp>, command: u8, tick: u32)
        ensures
            final(ops)@ == old(ops)@ + scheduled_command_ops(command, tick),
    {
        let ghost start = ops@;
        self.set_schedule_tick(ops, tick);
        ops.push(RegOp::Modify8 { addr: REG_RF_LL_CTRL_3, clear: 0, set: 0x04 });
        ops.push(RegOp::Write8 { addr: REG_RF_MODE_CONTROL, value: command });
        assert(ops@ =~= start + scheduled_command_ops(command, tick));
    }

    /// Schedules a BLE receive at system tick `tick`.
    pub fn start_brx_at(&mut self, ops: &mut Vec<RegOp>, tick: u32)
        ensures
            final(ops)@ == old(ops)@ + scheduled_command_ops(RF_CMD_BRX, tick),
    {
        self.enable_scheduled_command(ops, RF_CMD_BRX, tick);
    }

    pub fn stop_trx(&mut self, ops: &mut Vec<RegOp>)
        ensures
            final(ops)@ == old(ops)@.push(RegOp::Write8 { addr: REG_RF_MODE_CONTROL, value: 0x80 }),
    {
        ops.push(RegOp::Write8 { addr: REG_RF_MODE_CONTROL, value: 0x80 });
    }

    /// Schedules the packet at `addr` (`len` bytes) for transmission at `tick`,
    /// receiving afterwards.
    pub fn start_srx2tx_at(&mut self, ops: &mut Vec<RegOp>, addr: usize, len: usize, tick: u32) -> (r: Result<(), RadioError>)
        ensures
            r matches Err(e) ==> tx_buffer_error(addr, len) == Some(e) && final(ops)@ == old(ops)@,
            r is Ok ==> tx_buffer_error(addr, len) is None && final(ops)@ == old(ops)@
                + buffer_ops(REG_DMA3_ADDR, REG_DMA3_ADDR_HI, addr) + scheduled_command_ops(RF_CMD_SRX2TX, tick),
    {
        let ghost start = ops@;
        self.configure_tx_buffer(ops, addr, len)?;
        self.enable_scheduled_command(ops, RF_CMD_SRX2TX, tick);
        assert(ops@ =~= start + buffer_ops(REG_DMA3_ADDR, REG_DMA3_ADDR_HI, addr) + scheduled_command_ops(RF_CMD_SRX2TX, tick));
        Ok(())
    }

    pub fn start_srx2tx_now(&mut self, ops: &mut Vec<RegOp>, addr: usize, len: usize) -> (r: Result<(), RadioError>)
        ensures
            r matches Err(e) ==> tx_buffer_error(addr, len) == Some(e) && final(ops)@ == old(ops)@,
            r is Ok ==> tx_buffer_error(addr, len) is None && final(ops)@ == old(ops)@
                + buffer_ops(REG_DMA3_ADDR, REG_DMA3_ADDR_HI, addr) + immediate_command_ops(RF_CMD_SRX2TX),
    {
        let ghost start = ops@;
        self.configure_tx_buffer(ops, addr, len)?;
        ops.push(RegOp::Modify8 { addr: REG_RF_LL_CTRL_3, clear: 0x04, set: 0 });
        ops.push(RegOp::Write8 { addr: REG_RF_MODE_CONTROL, value: RF_CMD_SRX2TX });
        assert(ops@ =~= start + buffer_ops(REG_DMA3_ADDR, REG_DMA3_ADDR_HI, addr) + immediate_command_ops(RF_CMD_SRX2TX));
        Ok(())
    }

    /// Hands the packet at `addr` to the TX DMA right away.
    pub fn tx_packet_now(&mut self, ops: &mut Vec<RegOp>, addr: usize, len: usize) -> (r: Result<(), RadioError>)
        ensures
            r matches Err(e) ==> tx_buffer_error(addr, len) == Some(e) && final(ops)@ == old(ops)@,
            r is Ok ==> tx_buffer_error(addr, len) is None && final(ops)@ == old(ops)@
                + buffer_ops(REG_DMA3_ADDR, REG_DMA3_ADDR_HI, addr) + seq![
                    RegOp::Write8 { addr: REG_DMA3_ADDR_HI, value: 0x04 },
                    RegOp::Modify8 { addr: REG_DMA_TX_RDY0, clear: 0, set: FLD_DMA_CHN_RF_TX },
                ],
    {
        let ghost start = ops@;
        self.configure_tx_buffer(ops, addr, len)?;
        ops.push(RegOp::Write8 { addr: REG_DMA3_ADDR_HI, value: 0x04 });
        ops.push(RegOp::Modify8 { addr: REG_DMA_TX_RDY0, clear: 0, set: FLD_DMA_CHN_RF_TX });
        assert(ops@ =~= start + buffer_ops(REG_DMA3_ADDR, REG_DMA3_ADDR_HI, addr) + seq![
            RegOp::Write8 { addr: REG_DMA3_ADDR_HI, value: 0x04 },
            RegOp::Modify8 { addr: REG_DMA_TX_RDY0, clear: 0, set: FLD_DMA_CHN_RF_TX },
        ]);
        Ok(())
    }

    pub fn start_stx2rx_at(&mut self, ops: &mut Vec<RegOp>, addr: usize, len: usize, tick: u32) -> (r: Result<(), RadioError>)
        ensures
            r matches Err(e) ==> tx_buffer_error(addr, len) == Some(e) && final(ops)@ == old(ops)@,
            r is Ok ==> tx_buffer_error(addr, len) is None && final(ops)@ == old(ops)@
                + buffer_ops(REG_DMA3_ADDR, REG_DMA3_ADDR_HI, addr) + scheduled_command_ops(RF_CMD_STX2RX, tick),
    {
        let ghost start = ops@;
        self.configure_tx_buffer(ops, addr, len)?;
        self.enable_scheduled_command(ops, RF_CMD_STX2RX, tick);
        assert(ops@ =~= start + buffer_ops(REG_DMA3_ADDR, REG_DMA3_ADDR_HI, addr) + scheduled_command_ops(RF_CMD_STX2RX, tick));
        Ok(())
    }

    pub fn start_stx2rx_now(&mut self, ops: &mut Vec<RegOp>, addr: usize, len: usize) -> (r: Result<(), RadioError>)
        ensures
            r matches Err(e) ==> tx_buffer_error(addr, len) == Some(e) && final(ops)@ == old(ops)@,
            r is Ok ==> tx_buffer_error(addr, len) is None && final(ops)@ == old(ops)@
                + buffer_ops(REG_DMA3_ADDR, REG_DMA3_ADDR_HI, addr) + immediate_command_ops(RF_CMD_STX2RX),
    {
        let ghost start = ops@;
        self.configure_tx_buffer(ops, addr, len)?;
        ops.push(RegOp::Modify8 { addr: REG_RF_LL_CTRL_3, clear: 0x04, set: 0 });
        ops.push(RegOp::Write8 { addr: REG_RF_MODE_CONTROL, value: RF_CMD_STX2RX });
        assert(ops@ =~= start + buffer_ops(REG_DMA3_ADDR, REG_DMA3_ADDR_HI, addr) + immediate_command_ops(RF_CMD_STX2RX));
        Ok(())
    }

    /// Resets the baseband and brings it up in `mode` (BLE on advertising
    /// channel 37, Zigbee on channel 11).
    pub fn init_mode(&mut self, ops: &mut Vec<RegOp>, mode: RadioMode) -> (r: Result<(), RadioError>)
        ensures
            r is Ok,
            final(ops)@ == old(ops)@ + base_init_ops() + match mode {
                RadioMode::Ble1M => ble_phy_init_ops() + ble_advertising_config_ops(37),
                RadioMode::Zigbee250K => zigbee_config_ops(ZigbeeConfig { channel: 11, power: RadioPower(RadioPower::PLUS_3P23_DBM) }),
            },
    {
        let ghost start = ops@;
        self.reset_baseband(ops);
        self.set_tx_rx_off_auto_mode(ops);
        self.set_tx_rx_off(ops);
        self.reset_sn_nesn(ops);
        self.clear_all_irq_status(ops);
        self.clear_irq_mask(ops, IrqFlags(IrqFlags::ALL));
        self.set_tx_pipe(ops, 0);
        self.set_tx_settle_us(ops, DEFAULT_TX_SETTLE_US);
        assert(ops@ =~= start + base_init_ops());
        let ghost mid = ops@;
        match mode {
            RadioMode::Ble1M => {
                self.init_ble_advertising(ops)?;
            },
            RadioMode::Zigbee250K => {
                self.init_zigbee_250k(ops)?;
            },
        }
        Ok(())
    }

    pub fn apply_config(&mut self, ops: &mut Vec<RegOp>, config: RadioConfig) -> (r: Result<(), RadioError>)
        ensures
            match config {
                RadioConfig::Ble(c) => if c.channel > 39 {
                    r == Err::<(), RadioError>(RadioError::InvalidBleChannel(c.channel))
                        && final(ops)@ == old(ops)@.push(power_op(c.power))
                } else {
                    r is Ok && final(ops)@ == old(ops)@ + ble_config_ops(c)
                },
                RadioConfig::Zigbee(c) => if c.channel < 11 || c.channel > 26 {
                    r == Err::<(), RadioError>(RadioError::InvalidZigbeeChannel(c.channel))
                        && final(ops)@ == old(ops)@.push(power_op(c.power))
                } else {
                    r is Ok && final(ops)@ == old(ops)@ + zigbee_config_ops(c)
                },
            },
    {
        match config {
            RadioConfig::Ble(config) => self.apply_ble_config(ops, config),
            RadioConfig::Zigbee(config) => self.apply_zigbee_config(ops, config),
        }
    }

    pub fn apply_config_and_start_brx_at(&mut self, ops: &mut Vec<RegOp>, config: RadioConfig, tick: u32) -> (r: Result<(), RadioError>)
        ensures
            r is Ok <==> config_error(config) is None,
            r matches Err(e) ==> config_error(config) == Some(e),
            r is Ok ==> final(ops)@ == old(ops)@ + config_ops(config) + scheduled_command_ops(RF_CMD_BRX, tick),
    {
        let ghost start = ops@;
        self.apply_config(ops, config)?;
        self.start_brx_at(ops, tick);
        assert(ops@ =~= start + config_ops(config) + scheduled_command_ops(RF_CMD_BRX, tick));
        Ok(())
    }

    pub fn apply_config_and_start_srx2tx_at(
        &mut self,
        ops: &mut Vec<RegOp>,
        config: RadioConfig,
        addr: usize,
        len: usize,
        tick: u32,
    ) -> (r: Result<(), RadioError>)
        ensures
            config_error(config) is Some ==> r == Err::<(), RadioError>(config_error(config).unwrap()),
            config_error(config) is None ==> r == (match tx_buffer_error(addr, len) {
                Some(e) => Err::<(), RadioError>(e),
                None => Ok(()),
            }),
            r is Ok ==> final(ops)@ == old(ops)@ + config_ops(config) + buffer_ops(REG_DMA3_ADDR, REG_DMA3_ADDR_HI, addr)
                + scheduled_command_ops(RF_CMD_SRX2TX, tick),
    {
        let ghost start = ops@;
        self.apply_config(ops, config)?;
        self.start_srx2tx_at(ops, addr, len, tick)?;
        assert(ops@ =~= start + config_ops(config) + buffer_ops(REG_DMA3_ADDR, REG_DMA3_ADDR_HI, addr)
            + scheduled_command_ops(RF_CMD_SRX2TX, tick));
        Ok(())
    }

    pub fn apply_config_and_start_stx2rx_at(
        &mut self,
        ops: &mut Vec<RegOp>,
        config: RadioConfig,
        addr: usize,
        len: usize,
        tick: u32,
    ) -> (r: Result<(), RadioError>)
        ensures
            config_error(config) is Some ==> r == Err::<(), RadioError>(config_error(config).unwrap()),
            config_error(config) is None ==> r == (match tx_buffer_error(addr, len) {
                Some(e) => Err::<(), RadioError>(e),
                None => Ok(()),
            }),
            r is Ok ==> final(ops)@ == old(ops)@ + config_ops(config) + buffer_ops(REG_DMA3_ADDR, REG_DMA3_ADDR_HI, addr)
                + scheduled_command_ops(RF_CMD_STX2RX, tick),
    {
        let ghost start = ops@;
        self.apply_config(ops, config)?;
        self.start_stx2rx_at(ops, addr, len, tick)?;
        assert(ops@ =~= start + config_ops(config) + buffer_ops(REG_DMA3_ADDR, REG_DMA3_ADDR_HI, addr)
            + scheduled_command_ops(RF_CMD_STX2RX, tick));
        Ok(())
    }

    pub fn init_ble_advertising(&mut self, ops: &mut Vec<RegOp>) -> (r: Result<(), RadioError>)
        ensures
            r is Ok,
            final(ops)@ == old(ops)@ + ble_phy_init_ops() + ble_advertising_config_ops(37),
    {
        let ghost start = ops@;
        self.apply_ble_phy_init(ops);
        let ghost mid = ops@;
        let c = BleConfig::advertising(37);
        assert(c.crc[0] == 0x55 && c.crc[1] == 0x55 && c.crc[2] == 0x55);
        assert(crc_word(c.crc) == 0x55_5555);
        let r = self.apply_ble_config(ops, c);
        assert(ops@ =~= start + ble_phy_init_ops() + ble_advertising_config_ops(37));
        r
    }

    pub fn init_ble_vendor_1m_phy(&mut self, ops: &mut Vec<RegOp>)
        ensures
            final(ops)@ == old(ops)@ + ble_phy_init_ops(),
    {
        self.apply_ble_phy_init(ops);
    }

    fn apply_ble_phy_init(&mut self, ops: &mut Vec<RegOp>)
        ensures
            final(ops)@ == old(ops)@ + ble_phy_init_ops(),
    {
        let ghost start = ops@;
        ops.push(RegOp::Write8 { addr: 0x0080_12d2, value: 0x9b });
        ops.push(RegOp::Write8 { addr: 0x0080_12d3, value: 0x19 });
        ops.push(RegOp::Write8 { addr: 0x0080_127b, value: 0x0e });
        ops.push(RegOp::Write8 { addr: 0x0080_0430, value: 0x36 });
        ops.push(RegOp::Write8 { addr: 0x0080_1220, value: 0x16 });
        ops.push(RegOp::Write8 { addr: 0x0080_1221, value: 0x0a });
        ops.push(RegOp::Write8 { addr: 0x0080_1222, value: 0x20 });
        ops.push(RegOp::Write8 { addr: 0x0080_1223, value: 0x23 });
        ops.push(RegOp::Write8 { addr: 0x0080_124a, value: 0x0e });
        ops.push(RegOp::Write8 { addr: 0x0080_124b, value: 0x09 });
        ops.push(RegOp::Write8 { addr: 0x0080_1276, value: 0x45 });
        ops.push(RegOp::Write8 { addr: 0x0080_1277, value: 0x7b });
        ops.push(RegOp::Write8 { addr: 0x0080_1279, value: 0x08 });
        ops.push(RegOp::Write8 { addr: 0x0080_1273, value: 0x01 });
        ops.push(RegOp::Write8 { addr: 0x0080_1236, value: 0xb7 });
        ops.push(RegOp::Write8 { addr: 0x0080_1237, value: 0x8e });
        ops.push(RegOp::Write8 { addr: 0x0080_1238, value: 0xc4 });
        ops.push(RegOp::Write8 { addr: 0x0080_1239, value: 0x71 });
        ops.push(RegOp::Write8 { addr: 0x0080_0401, value: 0x01 });
        ops.push(RegOp::Write8 { addr: 0x0080_0402, value: 0x46 });
        ops.push(RegOp::Write8 { addr: 0x0080_0404, value: 0xf5 });
        ops.push(RegOp::Write8 { addr: 0x0080_0405, value: 0x04 });
        ops.push(RegOp::Write8 { addr: 0x0080_0420, value: 0x1e });
        ops.push(RegOp::Write32 { addr: 0x0080_0460, value: 0x5f4f4434 });
        ops.push(RegOp::Write16 { addr: 0x0080_0464, value: 0x766b });
        ops.push(RegOp::Write8 { addr: 0x0080_0f06, value: 0x00 });
        ops.push(RegOp::Write8 { addr: 0x0080_0f0c, value: 0x50 });
        ops.push(RegOp::Write8 { addr: 0x0080_0f0e, value: 0x00 });
        ops.push(RegOp::Write8 { addr: 0x0080_0f10, value: 0x00 });
        assert(ops@ =~= start + ble_phy_init_ops());
    }

    pub fn init_ble_with_access_code_crc(&mut self, ops: &mut Vec<RegOp>, channel: u8, access_code: u32, crc: [u8; 3]) -> (r: Result<(), RadioError>)
        ensures
            channel > 39 ==> r == Err::<(), RadioError>(RadioError::InvalidBleChannel(channel)),
            channel <= 39 ==> r is Ok && final(ops)@ == old(ops)@ + ble_config_ops(BleConfig {
                channel,
                access_code,
                crc,
                power: RadioPower(RadioPower::PLUS_3P23_DBM),
            }),
    {
        self.apply_ble_config(ops, BleConfig::data(channel, access_code, crc))
    }

    pub fn init_zigbee_250k(&mut self, ops: &mut Vec<RegOp>) -> (r: Result<(), RadioError>)
        ensures
            r is Ok,
            final(ops)@ == old(ops)@ + zigbee_config_ops(ZigbeeConfig { channel: 11, power: RadioPower(RadioPower::PLUS_3P23_DBM) }),
    {
        self.apply_zigbee_config(ops, ZigbeeConfig::new(11))
    }

    pub fn init_zigbee_channel(&mut self, ops: &mut Vec<RegOp>, channel: u8) -> (r: Result<(), RadioError>)
        ensures
            (channel < 11 || channel > 26) ==> r == Err::<(), RadioError>(RadioError::InvalidZigbeeChannel(channel)),
            (11 <= channel <= 26) ==> r is Ok && final(ops)@ == old(ops)@ + zigbee_config_ops(
                ZigbeeConfig { channel, power: RadioPower(RadioPower::PLUS_3P23_DBM) },
            ),
    {
        self.apply_zigbee_config(ops, ZigbeeConfig::new(channel))
    }

    /// Programs power, channel, access address and CRC seed.
    pub fn apply_ble_config(&mut self, ops: &mut Vec<RegOp>, config: BleConfig) -> (r: Result<(), RadioError>)
        ensures
            config.channel > 39 ==> r == Err::<(), RadioError>(RadioError::InvalidBleChannel(config.channel))
                && final(ops)@ == old(ops)@.push(power_op(config.power)),
            config.channel <= 39 ==> r is Ok && final(ops)@ == old(ops)@ + ble_config_ops(config),
    {
        let ghost start = ops@;
        self.set_power(ops, config.power);
        self.set_ble_channel(ops, config.channel)?;
        self.set_ble_access_code(ops, config.access_code);
        self.set_ble_crc(ops, config.crc);
        assert(ops@ =~= start + ble_config_ops(config));
        Ok(())
    }

    pub fn apply_zigbee_config(&mut self, ops: &mut Vec<RegOp>, config: ZigbeeConfig) -> (r: Result<(), RadioError>)
        ensures
            (config.channel < 11 || config.channel > 26) ==> r == Err::<(), RadioError>(
                RadioError::InvalidZigbeeChannel(config.channel),
            ) && final(ops)@ == old(ops)@.push(power_op(config.power)),
            (11 <= config.channel <= 26) ==> r is Ok && final(ops)@ == old(ops)@ + zigbee_config_ops(config),
    {
        let ghost start = ops@;
        self.set_power(ops, config.power);
        self.set_zigbee_channel(ops, config.channel)?;
        assert(ops@ =~= start + zigbee_config_ops(config));
        Ok(())
    }

    /// Enables the interrupts in `flags`.
    pub fn set_irq_mask(&mut self, ops: &mut Vec<RegOp>, flags: IrqFlags)
        ensures
            final(ops)@ == old(ops)@.push(RegOp::Modify16 { addr: REG_RF_IRQ_MASK, clear: 0, set: flags.0 }),
    {
        ops.push(RegOp::Modify16 { addr: REG_RF_IRQ_MASK, clear: 0, set: flags.bits() });
    }

    /// Disables the interrupts in `flags`.
    pub fn clear_irq_mask(&mut self, ops: &mut Vec<RegOp>, flags: IrqFlags)
        ensures
            final(ops)@ == old(ops)@.push(RegOp::Modify16 { addr: REG_RF_IRQ_MASK, clear: flags.0, set: 0 }),
    {
        ops.push(RegOp::Modify16 { addr: REG_RF_IRQ_MASK, clear: flags.bits(), set: 0 });
    }

    /// Acknowledges the interrupts in `flags` (write one to clear).
    pub fn clear_irq_status(&mut self, ops: &mut Vec<RegOp>, flags: IrqFlags)
        ensures
            final(ops)@ == old(ops)@.push(RegOp::Write16 { addr: REG_RF_IRQ_STATUS, value: flags.0 }),
    {
        ops.push(RegOp::Write16 { addr: REG_RF_IRQ_STATUS, value: flags.bits() });
    }

    pub fn clear_all_irq_status(&mut self, ops: &mut Vec<RegOp>)
        ensures
            final(ops)@ == old(ops)@.push(RegOp::Write16 { addr: REG_RF_IRQ_STATUS, value: 0x1fff }),
    {
        self.clear_irq_status(ops, IrqFlags(IrqFlags::ALL));
    }

    /// Whether the status word `status` reports a finished transmission.
    pub fn tx_finished(&self, status: IrqFlags) -> (b: bool)
        ensures
            b == ((status.0 & 0x0002) == 0x0002),
    {
        status.contains(IrqFlags(IrqFlags::TX))
    }

    /// The signal strength of the last packet in dBm, from the RSSI
    /// register value `raw` (`REG_RF_RSSI`), read as signed.
    pub fn rssi_dbm_154(&self, raw: u8) -> (d: i8)
        requires
            raw <= 127 || raw >= 238,
        ensures
            d == signed_byte(raw) - 110,
    {
        if raw < 128 {
            raw as i8 - 110
        } else {
            ((raw as i16) - 256 - 110) as i8
        }
    }

    /// Whether the receiver is in the middle of a packet, from the receive
    /// status register value `raw` (`REG_RF_RX_STATUS`): its bit 5.
    pub fn is_receiving_packet(&self, raw: u8) -> (b: bool)
        ensures
            b == ((raw / 32) % 2 == 1),
    {
        let bit = (raw >> 5u8) & 1;
        assert(((raw >> 5u8) & 1u8) == (raw / 32) % 2) by (bit_vector);
        bit != 0
    }

    /// Whether the status word `status` reports a finished reception.
    pub fn rx_finished(&self, status: IrqFlags) -> (b: bool)
        ensures
            b == ((status.0 & 0x0001) == 0x0001),
    {
        status.contains(IrqFlags(IrqFlags::RX))
    }
}

pub open spec fn config_error(config: RadioConfig) -> Option<RadioError> {
    match config {
        RadioConfig::Ble(c) => if c.channel > 39 { Some(RadioError::InvalidBleChannel(c.channel)) } else { None },
        RadioConfig::Zigbee(c) => if c.channel < 11 || c.channel > 26 {
            Some(RadioError::InvalidZigbeeChannel(c.channel))
        } else {
            None
        },
    }
}

pub open spec fn config_ops(config: RadioConfig) -> Seq<RegOp> {
    match config {
        RadioConfig::Ble(c) => ble_config_ops(c),
        RadioConfig::Zigbee(c) => zigbee_config_ops(c),
    }
}

} // verus!
