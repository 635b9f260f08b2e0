//! Over-the-air firmware update peripheral: a connectable advertiser with a
//! fixed GATT table, the Telink OTA write protocol that streams an image into
//! the application slot of the flash, and the minimal link-layer handling
//! that keeps a connection's data channel listening.

use vstd::prelude::*;
use crate::bytes::{le16_at, le16_bytes, le32_bytes, splice, read_le16, write_le16, copy_into};
use crate::flash::{erase_view, program_view, page_room, FlashTransfer, FlashTransferView, Flash, PAGE_SIZE, SECTOR_SIZE};
use crate::mmio::RegOp;
use crate::radio::{
    ble_config_ops, buffer_ops, immediate_command_ops, scheduled_command_ops, tx_buffer_error, BleConfig, IrqFlags,
    Radio, RadioPower, RF_CMD_BRX, RF_CMD_STX2RX,
};
use crate::regs::{REG_DMA3_ADDR, REG_DMA3_ADDR_HI};
use crate::ble::beacon::{
    adv_packet, beacon_init_ops, burst_next, burst_wf, result_wf, BeaconAdvertiser, BeaconBurst, BeaconConfig, BeaconError,
    BeaconEventResult, BeaconRxMeta, BurstAction, BurstEvent,
};
use crate::timer::{clock_time_exceed_us, elapsed};

verus! {

pub const CMD_OTA_VERSION: u16 = 0xFF00;
pub const CMD_OTA_START: u16 = 0xFF01;
pub const CMD_OTA_END: u16 = 0xFF02;
pub const CMD_OTA_START_EXT: u16 = 0xFF03;
pub const CMD_OTA_FW_VERSION_REQ: u16 = 0xFF04;
pub const CMD_OTA_FW_VERSION_RSP: u16 = 0xFF05;
pub const CMD_OTA_RESULT: u16 = 0xFF06;
pub const CMD_OTA_SCHEDULE_FW_SIZE: u16 = 0xFF09;

pub const OTA_SUCCESS: u8 = 0;
pub const OTA_PACKET_INVALID: u8 = 2;
pub const OTA_WRITE_FLASH_ERR: u8 = 4;
pub const OTA_DATA_INCOMPLETE: u8 = 5;
pub const OTA_FLOW_ERR: u8 = 6;
pub const OTA_FW_SIZE_ERR: u8 = 11;
pub const ATT_MTU_DEFAULT: u16 = 23;
pub const ATT_OP_ERROR_RSP: u8 = 0x01;
pub const ATT_OP_EXCHANGE_MTU_REQ: u8 = 0x02;
pub const ATT_OP_EXCHANGE_MTU_RSP: u8 = 0x03;
pub const ATT_OP_FIND_INFO_REQ: u8 = 0x04;
pub const ATT_OP_FIND_INFO_RSP: u8 = 0x05;
pub const ATT_OP_READ_BY_TYPE_REQ: u8 = 0x08;
pub const ATT_OP_READ_BY_TYPE_RSP: u8 = 0x09;
pub const ATT_OP_READ_REQ: u8 = 0x0A;
pub const ATT_OP_READ_RSP: u8 = 0x0B;
pub const ATT_OP_READ_BY_GROUP_TYPE_REQ: u8 = 0x10;
pub const ATT_OP_READ_BY_GROUP_TYPE_RSP: u8 = 0x11;
pub const ATT_OP_WRITE_REQ: u8 = 0x12;
pub const ATT_OP_WRITE_RSP: u8 = 0x13;
pub const ATT_OP_HANDLE_VALUE_NOTIF: u8 = 0x1B;
pub const ATT_OP_WRITE_CMD: u8 = 0x52;
pub const ATT_ERR_INVALID_HANDLE: u8 = 0x01;
pub const ATT_ERR_WRITE_NOT_PERMITTED: u8 = 0x03;
pub const ATT_ERR_INVALID_PDU: u8 = 0x04;
pub const ATT_ERR_ATTRIBUTE_NOT_FOUND: u8 = 0x0A;

pub const TELINK_OTA_SERVICE_UUID: [u8; 16] = [
    0x12, 0x19, 0x0d, 0x0c, 0x0b, 0x0a, 0x09, 0x08, 0x07, 0x06, 0x05, 0x04, 0x03, 0x02, 0x01, 0x00,
];
pub const TELINK_SPP_DATA_OTA_UUID: [u8; 16] = [
    0x12, 0x2B, 0x0d, 0x0c, 0x0b, 0x0a, 0x09, 0x08, 0x07, 0x06, 0x05, 0x04, 0x03, 0x02, 0x01, 0x00,
];

pub const GATT_UUID_PRIMARY_SERVICE: u16 = 0x2800;
pub const GATT_UUID_CHARACTER: u16 = 0x2803;
pub const GATT_UUID_DEVICE_NAME: u16 = 0x2A00;
pub const GATT_UUID_SERVICE_CHANGE: u16 = 0x2A05;
pub const GATT_UUID_CLIENT_CHAR_CFG: u16 = 0x2902;
pub const GATT_UUID_CHAR_USER_DESC: u16 = 0x2901;
pub const CHAR_PROP_READ: u8 = 0x02;
pub const CHAR_PROP_INDICATE: u8 = 0x20;

/// Magic word at the start of the image metadata record.
pub const OTA_META_MAGIC: u32 = 0x4F54_4131;
/// State word of a metadata record whose image is complete.
pub const OTA_META_STATE_READY: u32 = 0x5245_4144;

/// Number of BLE data channels.
pub const BLE_DATA_CHANNELS: u8 = 37;

// ---------------------------------------------------------------------------
// Attribute table
// ---------------------------------------------------------------------------

#[derive(Clone, Copy, Debug, PartialEq, Eq, Structural)]
pub enum OtaAttributeHandle {
    GapPrimaryService,
    GapDeviceNameChar,
    GapDeviceNameValue,
    GattPrimaryService,
    GattServiceChangedChar,
    GattServiceChangedValue,
    GattServiceChangedCcc,
    OtaPrimaryService,
    OtaDataChar,
    OtaDataValue,
    OtaDataCcc,
    OtaDataUserDesc,
}

pub open spec fn handle_value(h: OtaAttributeHandle) -> u16 {
    match h {
        OtaAttributeHandle::GapPrimaryService => 0x0001,
        OtaAttributeHandle::GapDeviceNameChar => 0x0002,
        OtaAttributeHandle::GapDeviceNameValue => 0x0003,
        OtaAttributeHandle::GattPrimaryService => 0x0004,
        OtaAttributeHandle::GattServiceChangedChar => 0x0005,
        OtaAttributeHandle::GattServiceChangedValue => 0x0006,
        OtaAttributeHandle::GattServiceChangedCcc => 0x0007,
        OtaAttributeHandle::OtaPrimaryService => 0x0008,
        OtaAttributeHandle::OtaDataChar => 0x0009,
        OtaAttributeHandle::OtaDataValue => 0x000A,
        OtaAttributeHandle::OtaDataCcc => 0x000B,
        OtaAttributeHandle::OtaDataUserDesc => 0x000C,
    }
}

impl OtaAttributeHandle {
    /// The ATT handle number.
    pub fn value(self) -> (v: u16)
        ensures
            v == handle_value(self),
    {
        match self {
            OtaAttributeHandle::GapPrimaryService => 0x0001,
            OtaAttributeHandle::GapDeviceNameChar => 0x0002,
            OtaAttributeHandle::GapDeviceNameValue => 0x0003,
            OtaAttributeHandle::GattPrimaryService => 0x0004,
            OtaAttributeHandle::GattServiceChangedChar => 0x0005,
            OtaAttributeHandle::GattServiceChangedValue => 0x0006,
            OtaAttributeHandle::GattServiceChangedCcc => 0x0007,
            OtaAttributeHandle::OtaPrimaryService => 0x0008,
            OtaAttributeHandle::OtaDataChar => 0x0009,
            OtaAttributeHandle::OtaDataValue => 0x000A,
            OtaAttributeHandle::OtaDataCcc => 0x000B,
            OtaAttributeHandle::OtaDataUserDesc => 0x000C,
        }
    }
}

#[derive(Clone, Copy, Debug, PartialEq, Eq)]
pub struct OtaAttribute {
    pub handle: u16,
    pub uuid16: Option<u16>,
    pub uuid128: Option<[u8; 16]>,
}

/// The 16-bit attribute type of each row of the table, by handle.
pub open spec fn attribute_uuid16(handle: u16) -> Option<u16> {
    if handle == 1 || handle == 4 || handle == 8 {
        Some(GATT_UUID_PRIMARY_SERVICE)
    } else if handle == 2 || handle == 5 || handle == 9 {
        Some(GATT_UUID_CHARACTER)
    } else if handle == 3 {
        Some(GATT_UUID_DEVICE_NAME)
    } else if handle == 6 {
        Some(GATT_UUID_SERVICE_CHANGE)
    } else if handle == 7 || handle == 11 {
        Some(GATT_UUID_CLIENT_CHAR_CFG)
    } else if handle == 12 {
        Some(GATT_UUID_CHAR_USER_DESC)
    } else {
        None
    }
}

/// The 128-bit UUID carried by a row of the table, by handle.
pub open spec fn attribute_uuid128(handle: u16) -> Option<Seq<u8>> {
    if handle == 8 {
        Some(TELINK_OTA_SERVICE_UUID@)
    } else if handle == 10 {
        Some(TELINK_SPP_DATA_OTA_UUID@)
    } else {
        None
    }
}

fn attribute(handle: u16, uuid16: Option<u16>, uuid128: Option<[u8; 16]>) -> (a: OtaAttribute)
    ensures
        a == (OtaAttribute { handle, uuid16, uuid128 }),
{
    OtaAttribute { handle, uuid16, uuid128 }
}

/// The GATT table: GAP service, GATT service with Service Changed, and the
/// Telink OTA service with its data characteristic, at handles 1 to 12.
pub fn default_ota_attributes() -> (t: [OtaAttribute; 12])
    ensures
        forall|i: int|
            0 <= i < 12 ==> {
                &&& #[trigger] t[i].handle == i + 1
                &&& t[i].uuid16 == attribute_uuid16((i + 1) as u16)
                &&& (match t[i].uuid128 {
                    Some(u) => attribute_uuid128((i + 1) as u16) == Some(u@),
                    None => attribute_uuid128((i + 1) as u16) is None,
                })
            },
{
    [
        attribute(1, Some(GATT_UUID_PRIMARY_SERVICE), None),
        attribute(2, Some(GATT_UUID_CHARACTER), None),
        attribute(3, Some(GATT_UUID_DEVICE_NAME), None),
        attribute(4, Some(GATT_UUID_PRIMARY_SERVICE), None),
        attribute(5, Some(GATT_UUID_CHARACTER), None),
        attribute(6, Some(GATT_UUID_SERVICE_CHANGE), None),
        attribute(7, Some(GATT_UUID_CLIENT_CHAR_CFG), None),
        attribute(8, Some(GATT_UUID_PRIMARY_SERVICE), Some(TELINK_OTA_SERVICE_UUID)),
        attribute(9, Some(GATT_UUID_CHARACTER), None),
        attribute(10, None, Some(TELINK_SPP_DATA_OTA_UUID)),
        attribute(11, Some(GATT_UUID_CLIENT_CHAR_CFG), None),
        attribute(12, Some(GATT_UUID_CHAR_USER_DESC), None),
    ]
}

// ---------------------------------------------------------------------------
// Notification payloads and small helpers
// ---------------------------------------------------------------------------

/// `CMD_OTA_FW_VERSION_RSP` followed by `version`, both little-endian.
pub fn build_version_rsp(version: u16) -> (r: [u8; 4])
    ensures
        r@ == le16_bytes(CMD_OTA_FW_VERSION_RSP) + le16_bytes(version),
{
    let r = [0x05u8, 0xFF, (version % 256) as u8, (version / 256) as u8];
    assert(r@ =~= le16_bytes(CMD_OTA_FW_VERSION_RSP) + le16_bytes(version));
    r
}

/// `CMD_OTA_RESULT` followed by the result code and a zero byte.
pub fn build_result_notify(result: u8) -> (r: [u8; 4])
    ensures
        r@ == le16_bytes(CMD_OTA_RESULT) + seq![result, 0u8],
{
    let r = [0x06u8, 0xFF, result, 0];
    assert(r@ =~= le16_bytes(CMD_OTA_RESULT) + seq![result, 0u8]);
    r
}

/// `CMD_OTA_SCHEDULE_FW_SIZE` followed by the byte count, little-endian.
pub fn build_schedule_fw_size(bytes: u32) -> (r: [u8; 6])
    ensures
        r@ == le16_bytes(CMD_OTA_SCHEDULE_FW_SIZE) + le32_bytes(bytes),
{
    let r = [
        0x09u8,
        0xFF,
        (bytes % 256) as u8,
        ((bytes / 256) % 256) as u8,
        ((bytes / 65536) % 256) as u8,
        (bytes / 16777216) as u8,
    ];
    assert(r@ =~= le16_bytes(CMD_OTA_SCHEDULE_FW_SIZE) + le32_bytes(bytes));
    r
}

/// `value` rounded up to a multiple of `align` (unchanged when `align` is 0).
pub open spec fn align_up_spec(value: u32, align: u32) -> int {
    if align == 0 || value % align == 0 {
        value as int
    } else {
        value + (align - value % align)
    }
}

/// Rounds `value` up to a multiple of `align`.
pub fn align_up(value: u32, align: u32) -> (r: u32)
    requires
        align_up_spec(value, align) <= u32::MAX,
    ensures
        r == align_up_spec(value, align),
{
    if align == 0 {
        return value;
    }
    let rem = value % align;
    if rem == 0 {
        value
    } else {
        value + (align - rem)
    }
}

/// Rounding up gives the least multiple of `align` that is not below `value`.
pub proof fn lemma_align_up(value: u32, align: u32)
    requires
        align > 0,
    ensures
        align_up_spec(value, align) % (align as int) == 0,
        value <= align_up_spec(value, align) < value + align,
        value % align == 0 ==> align_up_spec(value, align) == value,
{
    if value % align != 0 {
        let r = (value % align) as int;
        let q = (value / align) as int;
        assert(value == q * align + r) by (nonlinear_arith)
            requires
                align > 0,
                r == value % align,
                q == value / align,
        ;
        assert(align_up_spec(value, align) == (q + 1) * align) by (nonlinear_arith)
            requires
                value == q * align + r,
                align_up_spec(value, align) == value + (align - r),
        ;
        assert(((q + 1) * align) % (align as int) == 0) by (nonlinear_arith)
            requires
                align > 0,
        ;
    }
}

/// Advertising interval units (1.25 ms) to microseconds.
pub fn conn_interval_us(interval_1_25ms: u16) -> (r: u32)
    ensures
        r == interval_1_25ms as int * 1250,
{
    (interval_1_25ms as u32) * 1250
}

/// Whether data channel `ch` is marked used in the channel map `chm`.
pub open spec fn chan_on(chm: [u8; 5], ch: u8) -> bool {
    ch < 37 && ((chm[(ch / 8) as int] >> (ch % 8)) & 1u8) != 0
}

/// Whether data channel `ch` is enabled in the five-byte channel map.
pub fn channel_enabled(chm: [u8; 5], ch: u8) -> (b: bool)
    ensures
        b == chan_on(chm, ch),
{
    if ch >= 37 {
        return false;
    }
    let byte = (ch / 8) as usize;
    let bit = ch % 8;
    ((chm[byte] >> bit) & 1) != 0
}

/// The enabled data channels below `k`, in increasing order.
pub open spec fn enabled_below(chm: [u8; 5], k: nat) -> Seq<u8>
    decreases k,
{
    if k == 0 {
        Seq::empty()
    } else {
        let prev = enabled_below(chm, (k - 1) as nat);
        if chan_on(chm, (k - 1) as u8) {
            prev.push((k - 1) as u8)
        } else {
            prev
        }
    }
}

/// The data channel of connection event `event_counter`: channel selection
/// algorithm #1, with an unused channel remapped through the list of used
/// ones (channel 0 when none is used).
pub open spec fn data_channel(chm: [u8; 5], hop: u8, event_counter: u16) -> u8 {
    let unmapped = ((event_counter as int * hop as int) % 37) as u8;
    let used = enabled_below(chm, 37);
    if chan_on(chm, unmapped) {
        unmapped
    } else if used.len() == 0 {
        0
    } else {
        used[(unmapped as int) % (used.len() as int)]
    }
}

proof fn lemma_enabled_below(chm: [u8; 5], k: nat)
    requires
        k <= 37,
    ensures
        enabled_below(chm, k).len() <= k,
        forall|i: int|
            0 <= i < enabled_below(chm, k).len() ==> #[trigger] enabled_below(chm, k)[i] < k && chan_on(
                chm,
                enabled_below(chm, k)[i],
            ),
        forall|c: u8| c < k && chan_on(chm, c) ==> enabled_below(chm, k).contains(c),
    decreases k,
{
    if k > 0 {
        lemma_enabled_below(chm, (k - 1) as nat);
        let prev = enabled_below(chm, (k - 1) as nat);
        assert forall|c: u8| c < k && chan_on(chm, c) implies enabled_below(chm, k).contains(c) by {
            if c < k - 1 {
                let j = choose|j: int| 0 <= j < prev.len() && prev[j] == c;
                if chan_on(chm, (k - 1) as u8) {
                    assert(enabled_below(chm, k)[j] == c);
                }
            } else {
                assert(c == (k - 1) as u8);
                assert(enabled_below(chm, k)[prev.len() as int] == c);
            }
        }
    }
}

/// The channel picked for a connection event is a data channel, and a used
/// one whenever the map marks any channel used.
pub proof fn lemma_data_channel_is_used(chm: [u8; 5], hop: u8, event_counter: u16)
    ensures
        data_channel(chm, hop, event_counter) < 37,
        (exists|c: u8| c < 37 && chan_on(chm, c)) ==> chan_on(chm, data_channel(chm, hop, event_counter)),
{
    lemma_enabled_below(chm, 37);
    let unmapped = ((event_counter as int * hop as int) % 37) as u8;
    let used = enabled_below(chm, 37);
    if !chan_on(chm, unmapped) && used.len() > 0 {
        let k = (unmapped as int) % (used.len() as int);
        assert(0 <= k < used.len());
        assert(used[k] < 37 && chan_on(chm, used[k]));
    }
    if exists|c: u8| c < 37 && chan_on(chm, c) {
        let c = choose|c: u8| c < 37 && chan_on(chm, c);
        assert(used.contains(c));
    }
}

/// Picks the data channel for connection event `event_counter`.
pub fn pick_data_channel(chm: [u8; 5], hop: u8, event_counter: u16) -> (ch: u8)
    ensures
        ch == data_channel(chm, hop, event_counter),
{
    assert(event_counter as int * hop as int <= 65535 * 255) by (nonlinear_arith)
        requires
            event_counter <= 65535,
            hop <= 255,
    ;
    let product: u32 = (event_counter as u32) * (hop as u32);
    let unmapped = (product % 37) as u8;
    if channel_enabled(chm, unmapped) {
        return unmapped;
    }
    let mut used: Vec<u8> = Vec::new();
    let mut ch: u8 = 0;
    while ch < 37
        invariant
            ch <= 37,
            used@ == enabled_below(chm, ch as nat),
        decreases 37 - ch,
    {
        if channel_enabled(chm, ch) {
            used.push(ch);
        }
        ch = ch + 1;
    }
    proof {
        lemma_enabled_below(chm, 37);
    }
    let n = used.len();
    if n == 0 {
        return 0;
    }
    used[(unmapped as usize) % n]
}


// ---------------------------------------------------------------------------
// Link-layer framing
// ---------------------------------------------------------------------------

/// The little-endian 32-bit value stored at `s[i..i + 4]`.
pub open spec fn le32_at(s: Seq<u8>, i: int) -> int {
    s[i] + 256 * s[i + 1] + 65536 * s[i + 2] + 16777216 * s[i + 3]
}

/// The advertising data: flags, the name "TLS", a manufacturer marker and
/// the OTA service UUID.
pub open spec fn ota_adv_data() -> Seq<u8> {
    seq![2u8, 0x01, 0x06, 4, 0x09, 0x54, 0x4C, 0x53, 4, 0xFF, 0xFF, 0xFF, 0x52, 17, 0x07]
        + TELINK_OTA_SERVICE_UUID@
}

/// The advertising data and its length.
pub fn build_adv_data() -> (r: ([u8; 31], usize))
    ensures
        r.0@ == ota_adv_data(),
        r.1 == 31,
{
    let mut data = [0u8; 31];
    data[0] = 2;
    data[1] = 0x01;
    data[2] = 0x06;
    data[3] = 4;
    data[4] = 0x09;
    data[5] = 0x54;
    data[6] = 0x4C;
    data[7] = 0x53;
    data[8] = 4;
    data[9] = 0xFF;
    data[10] = 0xFF;
    data[11] = 0xFF;
    data[12] = 0x52;
    data[13] = 17;
    data[14] = 0x07;
    let mut i: usize = 0;
    while i < 16
        invariant
            i <= 16,
            data@.len() == 31,
            data@.take(15) =~= seq![2u8, 0x01, 0x06, 4, 0x09, 0x54, 0x4C, 0x53, 4, 0xFF, 0xFF, 0xFF, 0x52, 17, 0x07],
            data@.subrange(15, 15 + i as int) =~= TELINK_OTA_SERVICE_UUID@.take(i as int),
        decreases 16 - i,
    {
        data[15 + i] = TELINK_OTA_SERVICE_UUID[i];
        i = i + 1;
        assert(data@.subrange(15, 15 + i as int) =~= TELINK_OTA_SERVICE_UUID@.take(i as int));
    }
    assert(data@ =~= data@.take(15) + data@.subrange(15, 31));
    assert(TELINK_OTA_SERVICE_UUID@.take(16) =~= TELINK_OTA_SERVICE_UUID@);
    (data, 31)
}

/// A CONNECT_IND as read from the receive buffer, in the fields the
/// peripheral keeps.
#[derive(Clone, Copy, Debug, PartialEq, Eq)]
pub struct OtaConnectIndSummary {
    pub init_addr_le: [u8; 6],
    pub access_addr: u32,
    pub crc_init: [u8; 3],
    pub channel_map: [u8; 5],
    pub interval: u16,
    pub latency: u16,
    pub timeout: u16,
    pub hop: u8,
}

pub const BLE_PDU_SCAN_REQ: u8 = 0x03;
pub const BLE_PDU_CONNECT_IND: u8 = 0x05;

/// Whether `meta` and `p` (a receive DMA image: two length bytes, two
/// reserved, the PDU header, the payload length, the payload) carry a
/// complete CONNECT_IND addressed to this advertiser.
pub open spec fn is_connect_ind(meta: Option<BeaconRxMeta>, p: Seq<u8>) -> bool {
    match meta {
        Some(m) => m.pdu_type == BLE_PDU_CONNECT_IND && m.target_match && p.len() >= 40 && p[5] >= 34,
        None => false,
    }
}

/// `s` holds the CONNECT_IND fields of `p`: initiator address, access
/// address, CRC init, interval, latency, timeout, channel map and hop.
pub open spec fn connect_ind_fields(s: OtaConnectIndSummary, p: Seq<u8>) -> bool {
    &&& s.init_addr_le@ == p.subrange(6, 12)
    &&& s.access_addr == le32_at(p, 18)
    &&& s.crc_init@ == p.subrange(22, 25)
    &&& s.interval == le16_at(p, 28)
    &&& s.latency == le16_at(p, 30)
    &&& s.timeout == le16_at(p, 32)
    &&& s.channel_map@ == p.subrange(34, 39)
    &&& s.hop == p[39] & 0x1f
}

/// Reads the connection parameters out of a received CONNECT_IND.
pub fn parse_connect_ind_summary(rx_meta: Option<BeaconRxMeta>, packet: &[u8]) -> (r: Option<OtaConnectIndSummary>)
    ensures
        r is Some <==> is_connect_ind(rx_meta, packet@),
        r matches Some(s) ==> connect_ind_fields(s, packet@),
{
    let meta = match rx_meta {
        Some(m) => m,
        None => {
            return None;
        },
    };
    if meta.pdu_type != BLE_PDU_CONNECT_IND || !meta.target_match {
        return None;
    }
    if packet.len() < 40 || packet[5] < 34 {
        return None;
    }
    let init_addr_le = [packet[6], packet[7], packet[8], packet[9], packet[10], packet[11]];
    let access_addr = (packet[18] as u32) + (packet[19] as u32) * 256 + (packet[20] as u32) * 65536 + (packet[21] as u32)
        * 16777216;
    let crc_init = [packet[22], packet[23], packet[24]];
    let channel_map = [packet[34], packet[35], packet[36], packet[37], packet[38]];
    let interval = read_le16(packet, 28);
    let latency = read_le16(packet, 30);
    let timeout = read_le16(packet, 32);
    let hop = packet[39] & 0x1f;
    let s = OtaConnectIndSummary { init_addr_le, access_addr, crc_init, channel_map, interval, latency, timeout, hop };
    assert(s.init_addr_le@ =~= packet@.subrange(6, 12));
    assert(s.crc_init@ =~= packet@.subrange(22, 25));
    assert(s.channel_map@ =~= packet@.subrange(34, 39));
    Some(s)
}

/// What the receiver got on the data channel of a connection.
#[derive(Clone, Copy, Debug, PartialEq, Eq, Structural)]
pub struct OtaConnDataReport {
    pub rx: bool,
    pub llid: u8,
    pub len: u8,
    pub ll_ctrl_opcode: u8,
    pub att_opcode: u8,
}

pub open spec fn no_conn_data() -> OtaConnDataReport {
    OtaConnDataReport { rx: false, llid: 0, len: 0, ll_ctrl_opcode: 0, att_opcode: 0 }
}

pub open spec fn opt_bytes(packet: Option<&[u8]>) -> Seq<u8> {
    match packet {
        Some(p) => p@,
        None => Seq::empty(),
    }
}

/// The report on a data-channel reception: nothing unless connected with a
/// listen armed and a data PDU (type 0 to 3, non-empty) came in; an LL
/// control opcode for LLID 3, an ATT opcode for LLID 2 carrying L2CAP on
/// the ATT channel.
pub open spec fn conn_data_report(
    connected: bool,
    schedule_armed: bool,
    rx_meta: Option<BeaconRxMeta>,
    p: Seq<u8>,
) -> OtaConnDataReport {
    if !connected || !schedule_armed {
        no_conn_data()
    } else {
        match rx_meta {
            None => no_conn_data(),
            Some(m) => if m.pdu_type > 3 || m.pdu_len == 0 {
                no_conn_data()
            } else {
                let llid = m.pdu_type & 3u8;
                OtaConnDataReport {
                    rx: true,
                    llid,
                    len: m.pdu_len,
                    ll_ctrl_opcode: if llid == 3 && p.len() >= 7 { p[6] } else { 0 },
                    att_opcode: if llid == 2 && p.len() >= 11 && le16_at(p, 8) == 4 && le16_at(p, 6) >= 1 {
                        p[10]
                    } else {
                        0
                    },
                }
            },
        }
    }
}

/// Classifies what was received on the connection's data channel.
pub fn parse_connection_data_report(
    connected: bool,
    schedule_armed: bool,
    rx_meta: Option<BeaconRxMeta>,
    packet: Option<&[u8]>,
) -> (r: OtaConnDataReport)
    ensures
        r == conn_data_report(connected, schedule_armed, rx_meta, opt_bytes(packet)),
{
    if !connected || !schedule_armed {
        return OtaConnDataReport { rx: false, llid: 0, len: 0, ll_ctrl_opcode: 0, att_opcode: 0 };
    }
    let meta = match rx_meta {
        Some(m) => m,
        None => {
            return OtaConnDataReport { rx: false, llid: 0, len: 0, ll_ctrl_opcode: 0, att_opcode: 0 };
        },
    };
    if meta.pdu_type > 0x03 || meta.pdu_len == 0 {
        return OtaConnDataReport { rx: false, llid: 0, len: 0, ll_ctrl_opcode: 0, att_opcode: 0 };
    }
    let llid = meta.pdu_type & 0x03;
    let mut ll_ctrl_opcode = 0u8;
    let mut att_opcode = 0u8;
    if llid == 0x03 {
        if let Some(pkt) = packet {
            if pkt.len() >= 7 {
                ll_ctrl_opcode = pkt[6];
            }
        }
    } else if llid == 0x02 {
        if let Some(pkt) = packet {
            if pkt.len() >= 11 {
                let l2cap_len = read_le16(pkt, 6);
                let cid = read_le16(pkt, 8);
                if cid == 0x0004 && l2cap_len >= 1 {
                    att_opcode = pkt[10];
                }
            }
        }
    }
    OtaConnDataReport { rx: true, llid, len: meta.pdu_len, ll_ctrl_opcode, att_opcode }
}

/// The transmit DMA image of an LL data PDU (LLID 2) carrying `att` over
/// L2CAP on the ATT channel: DMA length, two zero bytes, header, payload
/// length, L2CAP length and channel, the ATT PDU.
pub open spec fn ll_att_frame(att: Seq<u8>) -> Seq<u8> {
    let payload_len = 4 + att.len();
    le16_bytes((payload_len + 2) as u16) + seq![0u8, 0u8, 0x02u8, payload_len as u8] + le16_bytes(att.len() as u16)
        + le16_bytes(4) + att
}

/// Whether `att` can be framed into a buffer of `out_len` bytes.
pub open spec fn ll_att_fits(att: Seq<u8>, out_len: nat) -> bool {
    att.len() > 0 && out_len >= 10 && 10 + att.len() <= out_len && 4 + att.len() <= 255
}

/// Frames `att_pdu` into `out`; returns the frame length, or 0 (and leaves
/// `out` alone) when the PDU is empty or does not fit.
pub fn build_ll_att_tx_packet(att_pdu: &[u8], out: &mut [u8]) -> (n: usize)
    ensures
        ll_att_fits(att_pdu@, old(out)@.len()) ==> n == 10 + att_pdu@.len() && final(out)@ == splice(
            old(out)@,
            0,
            ll_att_frame(att_pdu@),
        ),
        !ll_att_fits(att_pdu@, old(out)@.len()) ==> n == 0 && final(out)@ == old(out)@,
{
    if att_pdu.len() == 0 || out.len() < 10 {
        return 0;
    }
    let l2cap_len = att_pdu.len();
    if l2cap_len > 251 || 10 + l2cap_len > out.len() {
        return 0;
    }
    let payload_len = 4 + l2cap_len;
    let total = 6 + payload_len;
    let ghost start = out@;
    let dma_len = (payload_len + 2) as u16;
    write_le16(out, 0, dma_len);
    out[2] = 0;
    out[3] = 0;
    out[4] = 0x02;
    out[5] = payload_len as u8;
    write_le16(out, 6, l2cap_len as u16);
    write_le16(out, 8, 0x0004);
    copy_into(out, 10, att_pdu);
    assert(out@ =~= splice(start, 0, ll_att_frame(att_pdu@)));
    total
}

/// A frame built for an ATT PDU is read back as that PDU: the receive-side
/// report names LLID 2 and the PDU's opcode, and the L2CAP header delimits
/// exactly the PDU on the ATT channel.
pub proof fn lemma_ll_att_frame_round_trip(att: Seq<u8>, connected_meta: BeaconRxMeta)
    requires
        0 < att.len() <= 251,
        connected_meta.pdu_type == 2,
        connected_meta.pdu_len == 4 + att.len(),
    ensures
        ll_att_frame(att).len() == 10 + att.len(),
        le16_at(ll_att_frame(att), 6) == att.len(),
        le16_at(ll_att_frame(att), 8) == 4,
        ll_att_frame(att).subrange(10, 10 + att.len() as int) == att,
        conn_data_report(true, true, Some(connected_meta), ll_att_frame(att)) == (OtaConnDataReport {
            rx: true,
            llid: 2,
            len: (4 + att.len()) as u8,
            ll_ctrl_opcode: 0,
            att_opcode: att[0],
        }),
{
    let f = ll_att_frame(att);
    assert(2u8 & 3u8 == 2u8) by (bit_vector);
    assert(f.subrange(10, 10 + att.len() as int) =~= att);
    assert(f[6] == (att.len() % 256) as u8 && f[7] == (att.len() / 256) as u8);
    assert(f[8] == 4 && f[9] == 0);
    assert(f[10] == att[0]);
}

// ---------------------------------------------------------------------------
// Peripheral state
// ---------------------------------------------------------------------------

/// Where the image goes, how the peripheral advertises and how long a
/// silent connection is kept.
#[derive(Clone, Copy, Debug, PartialEq, Eq)]
pub struct OtaBootConfig {
    pub app_slot_base: u32,
    pub app_slot_size: u32,
    pub metadata_addr: u32,
    pub firmware_version: u16,
    pub adv_addr_le: [u8; 6],
    pub adv_interval_us: u32,
    pub adv_power: RadioPower,
    pub connection_hold_us: u32,
}

impl Default for OtaBootConfig {
    /// A 476 KiB slot at 0x8000, metadata at 0x7F000, advertising every
    /// 50 ms at +10.46 dBm, connections dropped after 2 s of silence.
    fn default() -> (c: Self)
        ensures
            c.app_slot_base == 0x0000_8000,
            c.app_slot_size == 0x0007_7000,
            c.metadata_addr == 0x0007_F000,
            c.firmware_version == 1,
            c.adv_addr_le@ == seq![0x58u8, 0x82, 0xDE, 0xC0, 0x4F, 0x54],
            c.adv_interval_us == 50_000,
            c.adv_power == RadioPower(RadioPower::PLUS_10P46_DBM),
            c.connection_hold_us == 2_000_000,
    {
        let c = OtaBootConfig {
            app_slot_base: 0x0000_8000,
            app_slot_size: 0x0007_7000,
            metadata_addr: 0x0007_F000,
            firmware_version: 1,
            adv_addr_le: [0x58, 0x82, 0xDE, 0xC0, 0x4F, 0x54],
            adv_interval_us: 50_000,
            adv_power: RadioPower(RadioPower::PLUS_10P46_DBM),
            connection_hold_us: 2_000_000,
        };
        assert(c.adv_addr_le@ =~= seq![0x58u8, 0x82, 0xDE, 0xC0, 0x4F, 0x54]);
        c
    }
}

/// The application slot ends below the last 4 KiB sector of the 32-bit
/// address space, so every sector boundary inside it can be computed.
pub open spec fn slot_fits(c: OtaBootConfig) -> bool {
    c.app_slot_base as int + c.app_slot_size as int <= 0xFFFF_F000
}

/// Progress of an update session.
#[derive(Clone, Copy, Debug, PartialEq, Eq, Structural)]
pub struct OtaStatus {
    pub started: bool,
    pub ccc_enabled: bool,
    pub pdu_len: u8,
    pub expected_index: u16,
    pub highest_written_index: u16,
    pub bytes_written: u32,
    pub ota_result: u8,
    pub fw_version: u16,
}

impl OtaStatus {
    pub open spec fn initial(fw_version: u16) -> Self {
        OtaStatus {
            started: false,
            ccc_enabled: false,
            pdu_len: 16,
            expected_index: 0,
            highest_written_index: 0,
            bytes_written: 0,
            ota_result: OTA_SUCCESS,
            fw_version,
        }
    }

    /// No session, notifications off, 16-byte chunks.
    pub fn new(fw_version: u16) -> (s: Self)
        ensures
            s == Self::initial(fw_version),
    {
        OtaStatus {
            started: false,
            ccc_enabled: false,
            pdu_len: 16,
            expected_index: 0,
            highest_written_index: 0,
            bytes_written: 0,
            ota_result: OTA_SUCCESS,
            fw_version,
        }
    }
}

#[derive(Clone, Copy, Debug, PartialEq, Eq, Structural)]
pub enum OtaCommandError {
    InvalidLength,
    InvalidFlow,
    InvalidIndex,
    InvalidPduLength,
    InvalidSize,
    FlashWrite,
}

/// Notifications an OTA write asks for.
#[derive(Clone, Copy, Debug, PartialEq, Eq)]
pub struct OtaProcessResult {
    pub schedule_notify: Option<[u8; 6]>,
    pub result_notify: Option<[u8; 4]>,
}

/// The notifications of an OTA write, as byte strings.
pub struct NotifyView {
    pub schedule: Option<Seq<u8>>,
    pub result: Option<Seq<u8>>,
}

pub open spec fn no_notify() -> NotifyView {
    NotifyView { schedule: None, result: None }
}

pub open spec fn notify_view(r: OtaProcessResult) -> NotifyView {
    NotifyView {
        schedule: match r.schedule_notify {
            Some(a) => Some(a@),
            None => None,
        },
        result: match r.result_notify {
            Some(a) => Some(a@),
            None => None,
        },
    }
}

pub open spec fn outcome_view(r: Result<OtaProcessResult, OtaCommandError>) -> Result<NotifyView, OtaCommandError> {
    match r {
        Ok(p) => Ok(notify_view(p)),
        Err(e) => Err(e),
    }
}

impl OtaProcessResult {
    pub fn none() -> (r: Self)
        ensures
            notify_view(r) == no_notify(),
    {
        OtaProcessResult { schedule_notify: None, result_notify: None }
    }
}

#[derive(Clone, Copy, Debug, PartialEq, Eq)]
pub enum OtaEventResult {
    Idle,
    Advertising(BeaconEventResult),
}

impl OtaEventResult {
    /// The report of a scheduling round: the burst's result when one ran.
    pub fn from_adv_event(adv_event: Option<BeaconEventResult>) -> (r: Self)
        ensures
            adv_event matches Some(e) ==> r == OtaEventResult::Advertising(e),
            adv_event is None ==> r == OtaEventResult::Idle,
    {
        match adv_event {
            Some(e) => OtaEventResult::Advertising(e),
            None => OtaEventResult::Idle,
        }
    }
}

#[derive(Clone, Copy, Debug, PartialEq, Eq, Structural)]
pub enum OtaLinkState {
    Advertising,
    Connected,
}

#[derive(Clone, Copy, Debug, PartialEq, Eq, Structural)]
pub enum OtaLinkTransition {
    /// Nothing changed.
    NoChange,
    Connected,
    Disconnected,
    Activity,
}

/// Timing and hopping parameters of the connection being followed.
#[derive(Clone, Copy, Debug, PartialEq, Eq)]
pub struct OtaConnSchedule {
    pub access_addr: u32,
    pub crc_init: [u8; 3],
    pub channel_map: [u8; 5],
    pub hop: u8,
    pub interval_us: u32,
    pub event_counter: u16,
    pub last_arm_tick: u32,
}

/// What became of a received ATT request: whether a response was framed
/// and whether its transmission was started.
#[derive(Clone, Copy, Debug, PartialEq, Eq, Structural)]
pub struct OtaAttResponseReport {
    pub built: bool,
    pub rsp_opcode: u8,
    pub tx_attempted: bool,
    pub tx_ok: bool,
}

/// Everything one scheduling round of the peripheral saw and did.
#[derive(Clone, Copy, Debug, PartialEq, Eq)]
pub struct OtaRunResult {
    pub adv_event: Option<BeaconEventResult>,
    pub rx_meta: Option<BeaconRxMeta>,
    pub connect_ind: Option<OtaConnectIndSummary>,
    pub conn_listen_armed: bool,
    pub conn_data_channel: u8,
    pub conn_data_rx: bool,
    pub conn_data_llid: u8,
    pub conn_data_len: u8,
    pub conn_ll_ctrl_rx: bool,
    pub conn_ll_ctrl_opcode: u8,
    pub conn_att_rx: bool,
    pub conn_att_opcode: u8,
    pub conn_att_rsp_built: bool,
    pub conn_att_rsp_opcode: u8,
    pub conn_att_tx_attempted: bool,
    pub conn_att_tx_ok: bool,
    pub link_state: OtaLinkState,
    pub transition: OtaLinkTransition,
}

/// The peripheral's state as the protocol sees it.
pub struct OtaView {
    pub config: OtaBootConfig,
    pub status: OtaStatus,
    /// The first flash address not yet erased for the current session.
    pub erased_until: u32,
    pub mtu: u16,
    /// The notification waiting to be sent, empty when none.
    pub pending: Seq<u8>,
    pub link_state: OtaLinkState,
    pub last_link_activity_tick: u32,
    pub conn_data_channel: u8,
    pub conn_schedule: Option<OtaConnSchedule>,
    pub beacon_config: BeaconConfig,
    pub beacon_packet: Seq<u8>,
    pub beacon_next_event_at: u32,
}

pub struct OtaPeripheral {
    advertiser: BeaconAdvertiser,
    flash: Flash,
    config: OtaBootConfig,
    status: OtaStatus,
    erased_until: u32,
    mtu: u16,
    pending_notify: Vec<u8>,
    link_state: OtaLinkState,
    last_link_activity_tick: u32,
    conn_data_channel: u8,
    conn_schedule: Option<OtaConnSchedule>,
}

impl View for OtaPeripheral {
    type V = OtaView;

    closed spec fn view(&self) -> OtaView {
        OtaView {
            config: self.config,
            status: self.status,
            erased_until: self.erased_until,
            mtu: self.mtu,
            pending: self.pending_notify@,
            link_state: self.link_state,
            last_link_activity_tick: self.last_link_activity_tick,
            conn_data_channel: self.conn_data_channel,
            conn_schedule: self.conn_schedule,
            beacon_config: self.advertiser.spec_config(),
            beacon_packet: self.advertiser.spec_tx_packet(),
            beacon_next_event_at: self.advertiser.spec_next_event_at(),
        }
    }
}

// ---------------------------------------------------------------------------
// The OTA write protocol, as a function of the state
// ---------------------------------------------------------------------------

pub open spec fn with_result(s: OtaView, code: u8) -> OtaView {
    OtaView { status: OtaStatus { ota_result: code, ..s.status }, ..s }
}

/// `CMD_OTA_START` with `pdu_len`-byte chunks: a multiple of 16 up to 240
/// resets the session and its erase mark.
pub open spec fn session_start(s: OtaView, pdu_len: u8) -> (OtaView, Result<NotifyView, OtaCommandError>) {
    if pdu_len == 0 || pdu_len > 240 || pdu_len % 16 != 0 {
        (with_result(s, OTA_PACKET_INVALID), Err(OtaCommandError::InvalidPduLength))
    } else {
        (
            OtaView {
                status: OtaStatus {
                    started: true,
                    pdu_len,
                    expected_index: 0,
                    highest_written_index: 0,
                    bytes_written: 0,
                    ota_result: OTA_SUCCESS,
                    ..s.status
                },
                erased_until: s.config.app_slot_base,
                ..s
            },
            Ok(no_notify()),
        )
    }
}

pub open spec fn sat_u32(x: int) -> u32 {
    if x > u32::MAX { u32::MAX } else { x as u32 }
}

/// The sector erases from `from` on, 4 KiB apart, while below `to`.
pub open spec fn erase_run(from: u32, to: u32) -> Seq<FlashTransferView>
    decreases u32::MAX - from,
{
    if from >= to {
        Seq::empty()
    } else {
        seq![erase_view(from)] + erase_run(sat_u32(from + SECTOR_SIZE), to)
    }
}

/// Where the erase mark stops after `erase_run(from, to)`.
pub open spec fn erase_end(from: u32, to: u32) -> u32
    decreases u32::MAX - from,
{
    if from >= to {
        from
    } else {
        erase_end(sat_u32(from + SECTOR_SIZE), to)
    }
}

/// The page programs that store `data` from `addr` on, the address moving
/// on with saturating arithmetic.
pub open spec fn slot_programs(addr: u32, data: Seq<u8>) -> Seq<FlashTransferView>
    decreases data.len(),
{
    if data.len() == 0 {
        Seq::empty()
    } else {
        let n = if data.len() < page_room(addr as int) { data.len() as int } else { page_room(addr as int) };
        seq![program_view(addr, data.take(n))] + slot_programs(sat_u32(addr + n), data.skip(n))
    }
}

/// The 16-byte metadata record of a complete image of `app_size` bytes.
pub open spec fn metadata_bytes(app_size: u32) -> Seq<u8> {
    le32_bytes(OTA_META_MAGIC) + le32_bytes(OTA_META_STATE_READY) + le32_bytes(app_size) + le32_bytes(0)
}

/// `CMD_OTA_END` closing at chunk `idx` (sent with its complement): the
/// metadata sector is rewritten and the result notified.
pub open spec fn session_end(s: OtaView, data: Seq<u8>) -> (OtaView, Result<NotifyView, OtaCommandError>, Seq<
    FlashTransferView,
>) {
    let idx = le16_at(data, 2) as u16;
    let idx_xor = le16_at(data, 4) as u16;
    if data.len() < 6 {
        (s, Err(OtaCommandError::InvalidLength), Seq::empty())
    } else if (idx ^ idx_xor) != 0xFFFF {
        (with_result(s, OTA_PACKET_INVALID), Err(OtaCommandError::InvalidIndex), Seq::empty())
    } else if !s.status.started {
        (with_result(s, OTA_FLOW_ERR), Err(OtaCommandError::InvalidFlow), Seq::empty())
    } else if s.status.bytes_written == 0 {
        (with_result(s, OTA_DATA_INCOMPLETE), Err(OtaCommandError::InvalidFlow), Seq::empty())
    } else if idx != s.status.highest_written_index {
        (with_result(s, OTA_DATA_INCOMPLETE), Err(OtaCommandError::InvalidIndex), Seq::empty())
    } else {
        (
            OtaView { status: OtaStatus { started: false, ota_result: OTA_SUCCESS, ..s.status }, ..s },
            Ok(NotifyView { schedule: None, result: Some(le16_bytes(CMD_OTA_RESULT) + seq![OTA_SUCCESS, 0u8]) }),
            seq![erase_view(s.config.metadata_addr)] + slot_programs(
                s.config.metadata_addr,
                metadata_bytes(s.status.bytes_written),
            ),
        )
    }
}

/// A data chunk: two index bytes, then the payload, stored at index times
/// the chunk length into the slot after erasing the sectors it reaches.
pub open spec fn data_chunk(s: OtaView, data: Seq<u8>) -> (OtaView, Result<NotifyView, OtaCommandError>, Seq<
    FlashTransferView,
>) {
    let idx = le16_at(data, 0);
    let payload = data.skip(2);
    let offset = idx * s.status.pdu_len;
    let end = offset + payload.len();
    let addr = (s.config.app_slot_base + offset) as u32;
    let needed = align_up_spec((addr + payload.len()) as u32, SECTOR_SIZE as u32) as u32;
    let bytes = if end > s.status.bytes_written { end as u32 } else { s.status.bytes_written };
    if data.len() < 3 {
        (with_result(s, OTA_PACKET_INVALID), Err(OtaCommandError::InvalidLength), Seq::empty())
    } else if !s.status.started {
        (with_result(s, OTA_FLOW_ERR), Err(OtaCommandError::InvalidFlow), Seq::empty())
    } else if idx != s.status.expected_index {
        (with_result(s, OTA_PACKET_INVALID), Err(OtaCommandError::InvalidIndex), Seq::empty())
    } else if end > s.config.app_slot_size {
        (with_result(s, OTA_FW_SIZE_ERR), Err(OtaCommandError::InvalidSize), Seq::empty())
    } else {
        (
            OtaView {
                status: OtaStatus {
                    expected_index: ((s.status.expected_index + 1) % 0x1_0000) as u16,
                    highest_written_index: idx as u16,
                    bytes_written: bytes,
                    ..s.status
                },
                erased_until: erase_end(s.erased_until, needed),
                ..s
            },
            Ok(
                NotifyView {
                    schedule: if s.status.ccc_enabled && (idx + 1) % 16 == 0 {
                        Some(le16_bytes(CMD_OTA_SCHEDULE_FW_SIZE) + le32_bytes(bytes))
                    } else {
                        None
                    },
                    result: None,
                },
            ),
            erase_run(s.erased_until, needed) + slot_programs(addr, payload),
        )
    }
}

/// A write to attribute `handle`: the data CCC switches notifications; on
/// the OTA data value a two-byte command (version query, start, extended
/// start, end) or else a data chunk; other handles are accepted and ignored.
pub open spec fn att_write(s: OtaView, handle: u16, data: Seq<u8>) -> (OtaView, Result<NotifyView, OtaCommandError>, Seq<
    FlashTransferView,
>) {
    let cmd = le16_at(data, 0);
    if handle == 0x000B {
        if data.len() < 2 {
            (s, Err(OtaCommandError::InvalidLength), Seq::empty())
        } else {
            (OtaView { status: OtaStatus { ccc_enabled: data[0] % 2 == 1, ..s.status }, ..s }, Ok(no_notify()), Seq::empty())
        }
    } else if handle != 0x000A {
        (s, Ok(no_notify()), Seq::empty())
    } else if data.len() >= 2 && (cmd == CMD_OTA_VERSION || cmd == CMD_OTA_FW_VERSION_REQ) {
        (
            s,
            Ok(
                NotifyView {
                    schedule: None,
                    result: Some(le16_bytes(CMD_OTA_FW_VERSION_RSP) + le16_bytes(s.status.fw_version)),
                },
            ),
            Seq::empty(),
        )
    } else if data.len() >= 2 && cmd == CMD_OTA_START {
        let (s2, r) = session_start(s, 16);
        (s2, r, Seq::empty())
    } else if data.len() >= 2 && cmd == CMD_OTA_START_EXT {
        if data.len() < 4 {
            (s, Err(OtaCommandError::InvalidLength), Seq::empty())
        } else {
            let (s2, r) = session_start(s, data[2]);
            (s2, r, Seq::empty())
        }
    } else if data.len() >= 2 && cmd == CMD_OTA_END {
        session_end(s, data)
    } else {
        data_chunk(s, data)
    }
}

// ---------------------------------------------------------------------------
// Flash programming for the update
// ---------------------------------------------------------------------------

proof fn lemma_single_page_program(addr: u32, c: Seq<u8>)
    requires
        0 < c.len() <= page_room(addr as int),
    ensures
        crate::flash::page_programs(addr, c) == seq![program_view(addr, c)],
{
    let n = c.len() as int;
    assert(c.take(n) =~= c);
    assert(c.skip(n) =~= Seq::<u8>::empty());
    assert(crate::flash::page_programs(((addr as int + n) % 0x1_0000_0000) as u32, c.skip(n)) =~= Seq::empty());
}

/// Programs `data` from `addr` on, one page at a time; the address moves on
/// with saturating arithmetic. Never fails.
pub fn write_flash_bytes(flash: &Flash, addr: u32, data: &[u8], flash_ops: &mut Vec<FlashTransfer>) -> (r: Result<(), ()>)
    ensures
        r is Ok,
        final(flash_ops).deep_view() == old(flash_ops).deep_view() + slot_programs(addr, data@),
{
    let ghost start = flash_ops.deep_view();
    let len = data.len();
    let mut at: u32 = addr;
    let mut pos: usize = 0;
    assert(data@.skip(0) =~= data@);
    while pos < len
        invariant
            len == data@.len(),
            pos <= len,
            flash_ops.deep_view() + slot_programs(at, data@.skip(pos as int)) == start + slot_programs(addr, data@),
        decreases len - pos,
    {
        let page_off = at as usize % PAGE_SIZE;
        let room = PAGE_SIZE - page_off;
        let rest = len - pos;
        let chunk = if rest < room { rest } else { room };
        let piece = vstd::slice::slice_subrange(data, pos, pos + chunk);
        let ghost rest_seq = data@.skip(pos as int);
        let ghost before = flash_ops.deep_view();
        assert(piece@ =~= rest_seq.take(chunk as int));
        proof {
            lemma_single_page_program(at, piece@);
        }
        let mut ts = flash.write_page(at, piece);
        let ghost ts_dv = ts.deep_view();
        flash_ops.append(&mut ts);
        assert(flash_ops.deep_view() =~= before + ts_dv);
        let next = at.saturating_add(chunk as u32);
        assert(next == sat_u32(at + chunk));
        assert(rest_seq.skip(chunk as int) =~= data@.skip(pos + chunk));
        assert(slot_programs(at, rest_seq) == seq![program_view(at, rest_seq.take(chunk as int))] + slot_programs(
            next,
            rest_seq.skip(chunk as int),
        ));
        assert(flash_ops.deep_view() + slot_programs(next, data@.skip(pos + chunk)) =~= before + slot_programs(at, rest_seq));
        at = next;
        pos = pos + chunk;
    }
    assert(data@.skip(len as int) =~= Seq::<u8>::empty());
    assert(flash_ops.deep_view() + slot_programs(at, Seq::<u8>::empty()) =~= flash_ops.deep_view());
    Ok(())
}

fn le32_array(v: u32) -> (r: [u8; 4])
    ensures
        r@ == le32_bytes(v),
{
    let r = [(v % 256) as u8, ((v / 256) % 256) as u8, ((v / 65536) % 256) as u8, (v / 16777216) as u8];
    assert(r@ =~= le32_bytes(v));
    r
}

impl OtaPeripheral {
    /// Erases every sector from the erase mark up to the end of the slot
    /// range `offset .. offset + payload.len()`, then programs the payload.
    fn write_app_data(&mut self, offset: u32, payload: &[u8], flash_ops: &mut Vec<FlashTransfer>) -> (r: Result<
        (),
        OtaCommandError,
    >)
        requires
            slot_fits(old(self)@.config),
            offset as int + payload@.len() <= old(self)@.config.app_slot_size,
        ensures
            r is Ok,
            ({
                let addr = (old(self)@.config.app_slot_base + offset) as u32;
                let needed = align_up_spec((addr + payload@.len()) as u32, SECTOR_SIZE as u32) as u32;
                &&& final(self)@ == OtaView { erased_until: erase_end(old(self)@.erased_until, needed), ..old(self)@ }
                &&& final(flash_ops).deep_view() == old(flash_ops).deep_view() + erase_run(old(self)@.erased_until, needed)
                    + slot_programs(addr, payload@)
            }),
    {
        let ghost start = flash_ops.deep_view();
        let addr = self.config.app_slot_base.saturating_add(offset);
        let top = addr.saturating_add(payload.len() as u32);
        proof {
            lemma_align_up(top, 4096);
        }
        let needed_end = align_up(top, SECTOR_SIZE as u32);
        let ghost e0 = self.erased_until;
        let mut eu = self.erased_until;
        while eu < needed_end
            invariant
                needed_end <= 0xFFFF_F000,
                flash_ops.deep_view() + erase_run(eu, needed_end) == start + erase_run(e0, needed_end),
                erase_end(eu, needed_end) == erase_end(e0, needed_end),
            decreases u32::MAX - eu,
        {
            let ghost before = flash_ops.deep_view();
            let t = self.flash.erase_sector(eu);
            flash_ops.push(t);
            assert(flash_ops.deep_view() =~= before.push(erase_view(eu)));
            let next = eu.saturating_add(SECTOR_SIZE as u32);
            assert(next == sat_u32(eu + SECTOR_SIZE));
            assert(flash_ops.deep_view() + erase_run(next, needed_end) =~= before + erase_run(eu, needed_end));
            eu = next;
        }
        assert(erase_run(eu, needed_end) =~= Seq::<FlashTransferView>::empty());
        self.erased_until = eu;
        let ghost mid = flash_ops.deep_view();
        match write_flash_bytes(&self.flash, addr, payload, flash_ops) {
            Ok(()) => {},
            Err(()) => {
                self.status.ota_result = OTA_WRITE_FLASH_ERR;
                return Err(OtaCommandError::FlashWrite);
            },
        }
        assert(flash_ops.deep_view() =~= start + erase_run(e0, needed_end) + slot_programs(addr, payload@));
        Ok(())
    }

    /// Rewrites the metadata sector with a READY record for the bytes
    /// written so far.
    fn commit_image(&mut self, flash_ops: &mut Vec<FlashTransfer>) -> (r: Result<(), OtaCommandError>)
        ensures
            r is Ok,
            final(self)@ == old(self)@,
            final(flash_ops).deep_view() == old(flash_ops).deep_view() + seq![erase_view(old(self)@.config.metadata_addr)]
                + slot_programs(old(self)@.config.metadata_addr, metadata_bytes(old(self)@.status.bytes_written)),
    {
        let ghost start = flash_ops.deep_view();
        let magic = le32_array(OTA_META_MAGIC);
        let state = le32_array(OTA_META_STATE_READY);
        let size = le32_array(self.status.bytes_written);
        let raw: [u8; 16] = [
            magic[0], magic[1], magic[2], magic[3],
            state[0], state[1], state[2], state[3],
            size[0], size[1], size[2], size[3],
            0, 0, 0, 0,
        ];
        assert(raw@ =~= metadata_bytes(self.status.bytes_written));
        let t = self.flash.erase_sector(self.config.metadata_addr);
        flash_ops.push(t);
        assert(flash_ops.deep_view() =~= start + seq![erase_view(self.config.metadata_addr)]);
        match write_flash_bytes(&self.flash, self.config.metadata_addr, &raw, flash_ops) {
            Ok(()) => Ok(()),
            Err(()) => Err(OtaCommandError::FlashWrite),
        }
    }

    fn start_session(&mut self, pdu_len: u8) -> (r: Result<(), OtaCommandError>)
        ensures
            final(self)@ == session_start(old(self)@, pdu_len).0,
            r is Ok <==> session_start(old(self)@, pdu_len).1 is Ok,
            r matches Err(e) ==> session_start(old(self)@, pdu_len).1 == Err::<NotifyView, OtaCommandError>(e),
    {
        if pdu_len == 0 || pdu_len > 240 || pdu_len % 16 != 0 {
            self.status.ota_result = OTA_PACKET_INVALID;
            return Err(OtaCommandError::InvalidPduLength);
        }
        self.status.started = true;
        self.status.pdu_len = pdu_len;
        self.status.expected_index = 0;
        self.status.highest_written_index = 0;
        self.status.bytes_written = 0;
        self.status.ota_result = OTA_SUCCESS;
        self.erased_until = self.config.app_slot_base;
        Ok(())
    }

    fn handle_data_chunk(&mut self, data: &[u8], flash_ops: &mut Vec<FlashTransfer>) -> (r: Result<
        OtaProcessResult,
        OtaCommandError,
    >)
        requires
            slot_fits(old(self)@.config),
            data@.len() <= u32::MAX,
        ensures
            final(self)@ == data_chunk(old(self)@, data@).0,
            outcome_view(r) == data_chunk(old(self)@, data@).1,
            final(flash_ops).deep_view() == old(flash_ops).deep_view() + data_chunk(old(self)@, data@).2,
    {
        if data.len() < 3 {
            self.status.ota_result = OTA_PACKET_INVALID;
            return Err(OtaCommandError::InvalidLength);
        }
        if !self.status.started {
            self.status.ota_result = OTA_FLOW_ERR;
            return Err(OtaCommandError::InvalidFlow);
        }
        let idx = read_le16(data, 0);
        if idx != self.status.expected_index {
            self.status.ota_result = OTA_PACKET_INVALID;
            return Err(OtaCommandError::InvalidIndex);
        }
        let payload = vstd::slice::slice_subrange(data, 2, data.len());
        assert(payload@ =~= data@.skip(2));
        let chunk_len = payload.len() as u32;
        assert(idx as int * self.status.pdu_len as int <= 65535 * 255) by (nonlinear_arith)
            requires
                idx <= 65535,
                self.status.pdu_len <= 255,
        ;
        let offset = (idx as u32) * (self.status.pdu_len as u32);
        if offset.saturating_add(chunk_len) > self.config.app_slot_size {
            self.status.ota_result = OTA_FW_SIZE_ERR;
            return Err(OtaCommandError::InvalidSize);
        }
        match self.write_app_data(offset, payload, flash_ops) {
            Ok(()) => {},
            Err(e) => {
                return Err(e);
            },
        }
        self.status.expected_index = self.status.expected_index.wrapping_add(1);
        self.status.highest_written_index = idx;
        let end = offset + chunk_len;
        if end > self.status.bytes_written {
            self.status.bytes_written = end;
        }
        let mut schedule: Option<[u8; 6]> = None;
        if self.status.ccc_enabled && ((idx as u32 + 1) % 16 == 0) {
            schedule = Some(build_schedule_fw_size(self.status.bytes_written));
        }
        Ok(OtaProcessResult { schedule_notify: schedule, result_notify: None })
    }

    /// Handles a write to attribute `handle` with value `data`; flash work
    /// is appended to `flash_ops`.
    pub fn process_att_write(&mut self, handle: u16, data: &[u8], flash_ops: &mut Vec<FlashTransfer>) -> (r: Result<
        OtaProcessResult,
        OtaCommandError,
    >)
        requires
            slot_fits(old(self)@.config),
            data@.len() <= u32::MAX,
        ensures
            final(self)@ == att_write(old(self)@, handle, data@).0,
            outcome_view(r) == att_write(old(self)@, handle, data@).1,
            final(flash_ops).deep_view() == old(flash_ops).deep_view() + att_write(old(self)@, handle, data@).2,
    {
        if handle == 0x000B {
            if data.len() < 2 {
                return Err(OtaCommandError::InvalidLength);
            }
            self.status.ccc_enabled = data[0] % 2 == 1;
            return Ok(OtaProcessResult::none());
        }
        if handle != 0x000A {
            return Ok(OtaProcessResult::none());
        }
        if data.len() >= 2 {
            let cmd = read_le16(data, 0);
            if cmd == CMD_OTA_VERSION || cmd == CMD_OTA_FW_VERSION_REQ {
                let rsp = build_version_rsp(self.status.fw_version);
                return Ok(OtaProcessResult { schedule_notify: None, result_notify: Some(rsp) });
            } else if cmd == CMD_OTA_START {
                match self.start_session(16) {
                    Ok(()) => {
                        return Ok(OtaProcessResult::none());
                    },
                    Err(e) => {
                        return Err(e);
                    },
                }
            } else if cmd == CMD_OTA_START_EXT {
                if data.len() < 4 {
                    return Err(OtaCommandError::InvalidLength);
                }
                match self.start_session(data[2]) {
                    Ok(()) => {
                        return Ok(OtaProcessResult::none());
                    },
                    Err(e) => {
                        return Err(e);
                    },
                }
            } else if cmd == CMD_OTA_END {
                if data.len() < 6 {
                    return Err(OtaCommandError::InvalidLength);
                }
                let idx = read_le16(data, 2);
                let idx_xor = read_le16(data, 4);
                if (idx ^ idx_xor) != 0xFFFF {
                    self.status.ota_result = OTA_PACKET_INVALID;
                    return Err(OtaCommandError::InvalidIndex);
                }
                if !self.status.started {
                    self.status.ota_result = OTA_FLOW_ERR;
                    return Err(OtaCommandError::InvalidFlow);
                }
                if self.status.bytes_written == 0 {
                    self.status.ota_result = OTA_DATA_INCOMPLETE;
                    return Err(OtaCommandError::InvalidFlow);
                }
                if idx != self.status.highest_written_index {
                    self.status.ota_result = OTA_DATA_INCOMPLETE;
                    return Err(OtaCommandError::InvalidIndex);
                }
                match self.commit_image(flash_ops) {
                    Ok(()) => {},
                    Err(e) => {
                        return Err(e);
                    },
                }
                self.status.started = false;
                self.status.ota_result = OTA_SUCCESS;
                let result = build_result_notify(OTA_SUCCESS);
                return Ok(OtaProcessResult { schedule_notify: None, result_notify: Some(result) });
            }
        }
        self.handle_data_chunk(data, flash_ops)
    }
}

// ---------------------------------------------------------------------------
// ATT server, as a function of the state
// ---------------------------------------------------------------------------

/// The state, response buffer, response length and flash work after an
/// ATT request.
pub struct AttOutcome {
    pub state: OtaView,
    pub out: Seq<u8>,
    pub len: nat,
    pub flash: Seq<FlashTransferView>,
}

/// An ATT error response for request `req` on `handle`, written when the
/// buffer has room for its five bytes.
pub open spec fn att_error(out: Seq<u8>, req: u8, handle: u16, err: u8) -> (Seq<u8>, nat) {
    if out.len() < 5 {
        (out, 0)
    } else {
        (splice(out, 0, seq![ATT_OP_ERROR_RSP, req] + le16_bytes(handle) + seq![err]), 5)
    }
}

pub open spec fn error_outcome(s: OtaView, out: Seq<u8>, req: u8, handle: u16, err: u8) -> AttOutcome {
    AttOutcome { state: s, out: att_error(out, req, handle, err).0, len: att_error(out, req, handle, err).1, flash: Seq::empty() }
}

/// Exchange MTU: the client's MTU, raised to the default 23.
pub open spec fn mtu_exchange(s: OtaView, pdu: Seq<u8>, out: Seq<u8>) -> AttOutcome {
    if pdu.len() < 3 || out.len() < 3 {
        error_outcome(s, out, ATT_OP_EXCHANGE_MTU_REQ, 0, ATT_ERR_INVALID_PDU)
    } else {
        let client = le16_at(pdu, 1);
        let mtu: u16 = if client < ATT_MTU_DEFAULT { ATT_MTU_DEFAULT } else { client as u16 };
        AttOutcome {
            state: OtaView { mtu, ..s },
            out: splice(out, 0, seq![ATT_OP_EXCHANGE_MTU_RSP] + le16_bytes(mtu)),
            len: 3,
            flash: Seq::empty(),
        }
    }
}

/// The group entries of the GAP (handles 1 to 3) and GATT (handles 4 to 7)
/// primary services within `start..=end`, each written when the buffer is
/// long enough for it.
pub open spec fn group_entries(out: Seq<u8>, start: u16, end: u16) -> (Seq<u8>, nat) {
    let gap = start <= 1 && end >= 1 && out.len() >= 8;
    let gatt = start <= 4 && end >= 4 && out.len() >= 14;
    let o1 = if gap { splice(out, 2, le16_bytes(1) + le16_bytes(3) + le16_bytes(0x1800)) } else { out };
    let off: int = if gap { 8 } else { 2 };
    let o2 = if gatt { splice(o1, off, le16_bytes(4) + le16_bytes(7) + le16_bytes(0x1801)) } else { o1 };
    (o2, (if gap { 1nat } else { 0nat }) + (if gatt { 1nat } else { 0nat }))
}

/// Read By Group Type for primary services.
pub open spec fn read_by_group_type(s: OtaView, pdu: Seq<u8>, out: Seq<u8>) -> AttOutcome {
    let start = le16_at(pdu, 1) as u16;
    let end = le16_at(pdu, 3) as u16;
    if pdu.len() < 7 {
        error_outcome(s, out, ATT_OP_READ_BY_GROUP_TYPE_REQ, 0, ATT_ERR_INVALID_PDU)
    } else if le16_at(pdu, 5) != GATT_UUID_PRIMARY_SERVICE {
        error_outcome(s, out, ATT_OP_READ_BY_GROUP_TYPE_REQ, start, ATT_ERR_ATTRIBUTE_NOT_FOUND)
    } else {
        let o0 = splice(out, 0, seq![ATT_OP_READ_BY_GROUP_TYPE_RSP, 6u8]);
        let (o, count) = group_entries(o0, start, end);
        if count == 0 {
            error_outcome(s, o0, ATT_OP_READ_BY_GROUP_TYPE_REQ, start, ATT_ERR_ATTRIBUTE_NOT_FOUND)
        } else {
            AttOutcome { state: s, out: o, len: 2 + 6 * count, flash: Seq::empty() }
        }
    }
}

/// One row of a listing response: skipped when handle `h` is outside
/// `start..=end`; otherwise written after `count` rows, or the listing stops
/// (third component) when the buffer has no room for it.
pub open spec fn fill_step(out: Seq<u8>, h: u16, body: Seq<u8>, start: u16, end: u16, count: nat) -> (Seq<u8>, nat, bool) {
    if h < start || h > end {
        (out, count, false)
    } else {
        let off = 2 + count * body.len();
        if out.len() < off + body.len() {
            (out, count, true)
        } else {
            (splice(out, off as int, body), count + 1, false)
        }
    }
}

/// The rows `rows` (handle and row bytes) within `start..=end`, in order,
/// up to the first one that does not fit.
pub open spec fn fill_rows(out: Seq<u8>, rows: Seq<(u16, Seq<u8>)>, start: u16, end: u16, count: nat) -> (Seq<u8>, nat)
    decreases rows.len(),
{
    if rows.len() == 0 {
        (out, count)
    } else {
        let (o, c, stop) = fill_step(out, rows[0].0, rows[0].1, start, end, count);
        if stop {
            (o, c)
        } else {
            fill_rows(o, rows.skip(1), start, end, c)
        }
    }
}

/// Characteristic declarations: device name (read) and service changed
/// (indicate).
pub open spec fn char_rows() -> Seq<(u16, Seq<u8>)> {
    seq![
        (2u16, le16_bytes(2) + seq![CHAR_PROP_READ] + le16_bytes(3) + le16_bytes(GATT_UUID_DEVICE_NAME)),
        (5u16, le16_bytes(5) + seq![CHAR_PROP_INDICATE] + le16_bytes(6) + le16_bytes(GATT_UUID_SERVICE_CHANGE)),
    ]
}

/// Descriptors: the two CCCs and the data user description.
pub open spec fn info_rows() -> Seq<(u16, Seq<u8>)> {
    seq![
        (7u16, le16_bytes(7) + le16_bytes(GATT_UUID_CLIENT_CHAR_CFG)),
        (11u16, le16_bytes(11) + le16_bytes(GATT_UUID_CLIENT_CHAR_CFG)),
        (12u16, le16_bytes(12) + le16_bytes(GATT_UUID_CHAR_USER_DESC)),
    ]
}

/// Read By Type for characteristic declarations.
pub open spec fn read_by_type(s: OtaView, pdu: Seq<u8>, out: Seq<u8>) -> AttOutcome {
    let start = le16_at(pdu, 1) as u16;
    let end = le16_at(pdu, 3) as u16;
    if pdu.len() < 7 {
        error_outcome(s, out, ATT_OP_READ_BY_TYPE_REQ, 0, ATT_ERR_INVALID_PDU)
    } else if le16_at(pdu, 5) != GATT_UUID_CHARACTER {
        error_outcome(s, out, ATT_OP_READ_BY_TYPE_REQ, start, ATT_ERR_ATTRIBUTE_NOT_FOUND)
    } else {
        let o0 = splice(out, 0, seq![ATT_OP_READ_BY_TYPE_RSP, 7u8]);
        let (o, count) = fill_rows(o0, char_rows(), start, end, 0);
        if count == 0 {
            error_outcome(s, o0, ATT_OP_READ_BY_TYPE_REQ, start, ATT_ERR_ATTRIBUTE_NOT_FOUND)
        } else {
            AttOutcome { state: s, out: o, len: 2 + 7 * count, flash: Seq::empty() }
        }
    }
}

/// Find Information over the descriptors, 16-bit UUID format.
pub open spec fn find_info(s: OtaView, pdu: Seq<u8>, out: Seq<u8>) -> AttOutcome {
    let start = le16_at(pdu, 1) as u16;
    let end = le16_at(pdu, 3) as u16;
    if pdu.len() < 5 {
        error_outcome(s, out, ATT_OP_FIND_INFO_REQ, 0, ATT_ERR_INVALID_PDU)
    } else {
        let o0 = splice(out, 0, seq![ATT_OP_FIND_INFO_RSP, 0x01u8]);
        let (o, count) = fill_rows(o0, info_rows(), start, end, 0);
        if count == 0 {
            error_outcome(s, o0, ATT_OP_FIND_INFO_REQ, start, ATT_ERR_ATTRIBUTE_NOT_FOUND)
        } else {
            AttOutcome { state: s, out: o, len: 2 + 4 * count, flash: Seq::empty() }
        }
    }
}

/// "TLSR-OTA8".
pub open spec fn device_name() -> Seq<u8> {
    seq![0x54u8, 0x4C, 0x53, 0x52, 0x2D, 0x4F, 0x54, 0x41, 0x38]
}

/// "OTA".
pub open spec fn data_user_desc() -> Seq<u8> {
    seq![0x4Fu8, 0x54, 0x41]
}

/// A read response carrying `value` after the opcode already written to
/// `o0`, or nothing (length 0) when the buffer is too short.
pub open spec fn read_value(s: OtaView, o0: Seq<u8>, value: Seq<u8>) -> AttOutcome {
    if o0.len() < 1 + value.len() {
        AttOutcome { state: s, out: o0, len: 0, flash: Seq::empty() }
    } else {
        AttOutcome { state: s, out: splice(o0, 1, value), len: 1 + value.len(), flash: Seq::empty() }
    }
}

/// Read: the device name, the service-changed value and CCC (zeros), the
/// data CCC, the data user description, an empty data value.
pub open spec fn read_request(s: OtaView, pdu: Seq<u8>, out: Seq<u8>) -> AttOutcome {
    let h = le16_at(pdu, 1) as u16;
    let o0 = splice(out, 0, seq![ATT_OP_READ_RSP]);
    if pdu.len() < 3 {
        error_outcome(s, out, ATT_OP_READ_REQ, 0, ATT_ERR_INVALID_PDU)
    } else if h == 3 {
        read_value(s, o0, device_name())
    } else if h == 6 {
        read_value(s, o0, seq![0u8, 0, 0, 0])
    } else if h == 7 {
        read_value(s, o0, le16_bytes(0))
    } else if h == 11 {
        read_value(s, o0, le16_bytes(if s.status.ccc_enabled { 1 } else { 0 }))
    } else if h == 12 {
        read_value(s, o0, data_user_desc())
    } else if h == 10 {
        read_value(s, o0, seq![0u8])
    } else {
        error_outcome(s, o0, ATT_OP_READ_REQ, h, ATT_ERR_INVALID_HANDLE)
    }
}

pub open spec fn att_error_code(e: OtaCommandError) -> u8 {
    match e {
        OtaCommandError::InvalidLength => ATT_ERR_INVALID_PDU,
        _ => ATT_ERR_WRITE_NOT_PERMITTED,
    }
}

/// The first eight bytes of `payload` as the pending notification.
pub open spec fn with_pending(s: OtaView, payload: Seq<u8>) -> OtaView {
    OtaView { pending: payload.take(if payload.len() > 8 { 8 } else { payload.len() as int }), ..s }
}

/// Queues the result notification of a write, else its schedule one.
pub open spec fn queued(s: OtaView, n: NotifyView) -> OtaView {
    match n.result {
        Some(p) => with_pending(s, p),
        None => match n.schedule {
            Some(p) => with_pending(s, p),
            None => s,
        },
    }
}

/// Write Request: the write, then a write response or an error response.
pub open spec fn write_request(s: OtaView, pdu: Seq<u8>, out: Seq<u8>) -> AttOutcome {
    let h = le16_at(pdu, 1) as u16;
    if pdu.len() < 3 {
        error_outcome(s, out, ATT_OP_WRITE_REQ, 0, ATT_ERR_INVALID_PDU)
    } else {
        let (s2, r, fl) = att_write(s, h, pdu.skip(3));
        match r {
            Ok(n) => AttOutcome { state: queued(s2, n), out: splice(out, 0, seq![ATT_OP_WRITE_RSP]), len: 1, flash: fl },
            Err(e) => AttOutcome {
                state: s2,
                out: att_error(out, ATT_OP_WRITE_REQ, h, att_error_code(e)).0,
                len: att_error(out, ATT_OP_WRITE_REQ, h, att_error_code(e)).1,
                flash: fl,
            },
        }
    }
}

/// Write Command: the write without any response.
pub open spec fn write_command(s: OtaView, pdu: Seq<u8>, out: Seq<u8>) -> AttOutcome {
    if pdu.len() < 3 {
        AttOutcome { state: s, out, len: 0, flash: Seq::empty() }
    } else {
        let (s2, r, fl) = att_write(s, le16_at(pdu, 1) as u16, pdu.skip(3));
        AttOutcome {
            state: match r {
                Ok(n) => queued(s2, n),
                Err(_) => s2,
            },
            out,
            len: 0,
            flash: fl,
        }
    }
}

/// An ATT request and its response.
pub open spec fn att_request(s: OtaView, pdu: Seq<u8>, out: Seq<u8>) -> AttOutcome {
    if pdu.len() == 0 || out.len() == 0 {
        AttOutcome { state: s, out, len: 0, flash: Seq::empty() }
    } else if pdu[0] == ATT_OP_EXCHANGE_MTU_REQ {
        mtu_exchange(s, pdu, out)
    } else if pdu[0] == ATT_OP_READ_BY_GROUP_TYPE_REQ {
        read_by_group_type(s, pdu, out)
    } else if pdu[0] == ATT_OP_READ_BY_TYPE_REQ {
        read_by_type(s, pdu, out)
    } else if pdu[0] == ATT_OP_FIND_INFO_REQ {
        find_info(s, pdu, out)
    } else if pdu[0] == ATT_OP_READ_REQ {
        read_request(s, pdu, out)
    } else if pdu[0] == ATT_OP_WRITE_REQ {
        write_request(s, pdu, out)
    } else if pdu[0] == ATT_OP_WRITE_CMD {
        write_command(s, pdu, out)
    } else {
        error_outcome(s, out, pdu[0], 0, ATT_ERR_INVALID_PDU)
    }
}

/// The requests whose response header needs two bytes of buffer before the
/// buffer's length is checked.
pub open spec fn needs_two_bytes(pdu: Seq<u8>) -> bool {
    pdu.len() > 0 && ((pdu[0] == ATT_OP_READ_BY_GROUP_TYPE_REQ && pdu.len() >= 7 && le16_at(pdu, 5)
        == GATT_UUID_PRIMARY_SERVICE) || (pdu[0] == ATT_OP_READ_BY_TYPE_REQ && pdu.len() >= 7 && le16_at(pdu, 5)
        == GATT_UUID_CHARACTER) || (pdu[0] == ATT_OP_FIND_INFO_REQ && pdu.len() >= 5))
}

/// The pending notification as a Handle Value Notification on the data
/// value, when there is one and it fits.
pub open spec fn pending_notification(s: OtaView, out: Seq<u8>) -> (OtaView, Seq<u8>, nat) {
    let p = s.pending;
    if p.len() == 0 || out.len() < p.len() + 3 {
        (s, out, 0)
    } else {
        (OtaView { pending: Seq::empty(), ..s }, splice(out, 0, seq![ATT_OP_HANDLE_VALUE_NOTIF] + le16_bytes(0x000A) + p), p.len()
            + 3)
    }
}

fn fill_row(out: &mut [u8], h: u16, body: &[u8], start: u16, end: u16, count: usize) -> (r: (usize, bool))
    requires
        count <= 3,
        body@.len() <= 7,
    ensures
        (final(out)@, r.0 as nat, r.1) == fill_step(old(out)@, h, body@, start, end, count as nat),
        r.0 <= count + 1,
        final(out)@.len() == old(out)@.len(),
        r.0 > count ==> old(out)@.len() >= 2 + r.0 * body@.len(),
        r.0 == count || r.0 == count + 1,
{
    if h < start || h > end {
        return (count, false);
    }
    assert(count * body@.len() <= 21) by (nonlinear_arith)
        requires
            count <= 3,
            body@.len() <= 7,
    ;
    let off = 2 + count * body.len();
    if out.len() < off + body.len() {
        return (count, true);
    }
    copy_into(out, off, body);
    assert((count + 1) * body@.len() == count * body@.len() + body@.len()) by (nonlinear_arith);
    (count + 1, false)
}

fn char_row(h: u16, prop: u8, value_handle: u16, uuid: u16) -> (r: [u8; 7])
    ensures
        r@ == le16_bytes(h) + seq![prop] + le16_bytes(value_handle) + le16_bytes(uuid),
{
    let r = [
        (h % 256) as u8,
        (h / 256) as u8,
        prop,
        (value_handle % 256) as u8,
        (value_handle / 256) as u8,
        (uuid % 256) as u8,
        (uuid / 256) as u8,
    ];
    assert(r@ =~= le16_bytes(h) + seq![prop] + le16_bytes(value_handle) + le16_bytes(uuid));
    r
}

fn info_row(h: u16, uuid: u16) -> (r: [u8; 4])
    ensures
        r@ == le16_bytes(h) + le16_bytes(uuid),
{
    let r = [(h % 256) as u8, (h / 256) as u8, (uuid % 256) as u8, (uuid / 256) as u8];
    assert(r@ =~= le16_bytes(h) + le16_bytes(uuid));
    r
}

impl OtaPeripheral {
    fn write_att_error(&self, out: &mut [u8], req_opcode: u8, handle: u16, err: u8) -> (n: usize)
        ensures
            final(out)@.len() == old(out)@.len(),
            n <= old(out)@.len(),
            (final(out)@, n as nat) == att_error(old(out)@, req_opcode, handle, err),
    {
        if out.len() < 5 {
            return 0;
        }
        let ghost start = out@;
        out[0] = ATT_OP_ERROR_RSP;
        out[1] = req_opcode;
        write_le16(out, 2, handle);
        out[4] = err;
        assert(out@ =~= splice(start, 0, seq![ATT_OP_ERROR_RSP, req_opcode] + le16_bytes(handle) + seq![err]));
        5
    }

    /// Sends the pending notification into `out`; returns its length, or 0
    /// when none is pending or it does not fit.
    pub fn take_pending_notify(&mut self, out: &mut [u8]) -> (n: usize)
        ensures
            final(out)@.len() == old(out)@.len(),
            n <= old(out)@.len(),
            (final(self)@, final(out)@, n as nat) == pending_notification(old(self)@, old(out)@),
    {
        let payload_len = self.pending_notify.len();
        if payload_len == 0 || out.len() < 3 || out.len() - 3 < payload_len {
            return 0;
        }
        let ghost start = out@;
        out[0] = ATT_OP_HANDLE_VALUE_NOTIF;
        write_le16(out, 1, 0x000A);
        copy_into(out, 3, self.pending_notify.as_slice());
        assert(out@ =~= splice(start, 0, seq![ATT_OP_HANDLE_VALUE_NOTIF] + le16_bytes(0x000A) + self.pending_notify@));
        self.pending_notify = Vec::new();
        assert(self.pending_notify@ =~= Seq::<u8>::empty());
        payload_len + 3
    }

    /// Keeps the first eight bytes of `payload` as the pending notification.
    fn queue_notify(&mut self, payload: &[u8])
        ensures
            final(self)@ == with_pending(old(self)@, payload@),
    {
        let len = if payload.len() > 8 { 8 } else { payload.len() };
        self.pending_notify = vstd::slice::slice_to_vec(vstd::slice::slice_subrange(payload, 0, len));
        assert(self.pending_notify@ =~= payload@.take(len as int));
    }

    fn queue_process_result(&mut self, r: OtaProcessResult)
        ensures
            final(self)@ == queued(old(self)@, notify_view(r)),
    {
        if let Some(pkt) = r.result_notify {
            self.queue_notify(&pkt);
        } else if let Some(pkt) = r.schedule_notify {
            self.queue_notify(&pkt);
        }
    }

    fn handle_att_exchange_mtu_req(&mut self, pdu: &[u8], out: &mut [u8]) -> (n: usize)
        ensures
            final(out)@.len() == old(out)@.len(),
            n <= old(out)@.len(),
            (final(self)@, final(out)@, n as nat) == ({
                let o = mtu_exchange(old(self)@, pdu@, old(out)@);
                (o.state, o.out, o.len)
            }),
    {
        if pdu.len() < 3 || out.len() < 3 {
            return self.write_att_error(out, ATT_OP_EXCHANGE_MTU_REQ, 0, ATT_ERR_INVALID_PDU);
        }
        let client_mtu = read_le16(pdu, 1);
        self.mtu = if client_mtu < ATT_MTU_DEFAULT { ATT_MTU_DEFAULT } else { client_mtu };
        let ghost start = out@;
        out[0] = ATT_OP_EXCHANGE_MTU_RSP;
        write_le16(out, 1, self.mtu);
        assert(out@ =~= splice(start, 0, seq![ATT_OP_EXCHANGE_MTU_RSP] + le16_bytes(self.mtu)));
        3
    }

    fn handle_att_read_by_group_type_req(&mut self, pdu: &[u8], out: &mut [u8]) -> (n: usize)
        requires
            old(out)@.len() >= 2 || !needs_two_bytes(pdu@),
            old(out)@.len() >= 1,
            pdu@.len() >= 1,
            pdu@[0] == ATT_OP_READ_BY_GROUP_TYPE_REQ,
        ensures
            final(out)@.len() == old(out)@.len(),
            n <= old(out)@.len(),
            (final(self)@, final(out)@, n as nat) == ({
                let o = read_by_group_type(old(self)@, pdu@, old(out)@);
                (o.state, o.out, o.len)
            }),
    {
        if pdu.len() < 7 {
            return self.write_att_error(out, ATT_OP_READ_BY_GROUP_TYPE_REQ, 0, ATT_ERR_INVALID_PDU);
        }
        let start = read_le16(pdu, 1);
        let end = read_le16(pdu, 3);
        let group_uuid = read_le16(pdu, 5);
        if group_uuid != GATT_UUID_PRIMARY_SERVICE {
            return self.write_att_error(out, ATT_OP_READ_BY_GROUP_TYPE_REQ, start, ATT_ERR_ATTRIBUTE_NOT_FOUND);
        }
        let ghost start_out = out@;
        let mut count: usize = 0;
        out[0] = ATT_OP_READ_BY_GROUP_TYPE_RSP;
        out[1] = 6;
        let ghost o0 = out@;
        assert(o0 =~= splice(start_out, 0, seq![ATT_OP_READ_BY_GROUP_TYPE_RSP, 6u8]));
        if start <= 1 && end >= 1 && out.len() >= 8 {
            let off = 2 + count * 6;
            write_le16(out, off, 1);
            write_le16(out, off + 2, 3);
            write_le16(out, off + 4, 0x1800);
            count = count + 1;
            assert(out@ =~= splice(o0, 2, le16_bytes(1) + le16_bytes(3) + le16_bytes(0x1800)));
        }
        let ghost o1 = out@;
        if start <= 4 && end >= 4 && out.len() >= 14 {
            let off = 2 + count * 6;
            write_le16(out, off, 4);
            write_le16(out, off + 2, 7);
            write_le16(out, off + 4, 0x1801);
            count = count + 1;
            assert(out@ =~= splice(o1, off as int, le16_bytes(4) + le16_bytes(7) + le16_bytes(0x1801)));
        }
        if count == 0 {
            return self.write_att_error(out, ATT_OP_READ_BY_GROUP_TYPE_REQ, start, ATT_ERR_ATTRIBUTE_NOT_FOUND);
        }
        2 + count * 6
    }

    fn handle_att_read_by_type_req(&mut self, pdu: &[u8], out: &mut [u8]) -> (n: usize)
        requires
            old(out)@.len() >= 2 || !needs_two_bytes(pdu@),
            old(out)@.len() >= 1,
            pdu@.len() >= 1,
            pdu@[0] == ATT_OP_READ_BY_TYPE_REQ,
        ensures
            final(out)@.len() == old(out)@.len(),
            n <= old(out)@.len(),
            (final(self)@, final(out)@, n as nat) == ({
                let o = read_by_type(old(self)@, pdu@, old(out)@);
                (o.state, o.out, o.len)
            }),
    {
        if pdu.len() < 7 {
            return self.write_att_error(out, ATT_OP_READ_BY_TYPE_REQ, 0, ATT_ERR_INVALID_PDU);
        }
        let start = read_le16(pdu, 1);
        let end = read_le16(pdu, 3);
        let typ = read_le16(pdu, 5);
        if typ != GATT_UUID_CHARACTER {
            return self.write_att_error(out, ATT_OP_READ_BY_TYPE_REQ, start, ATT_ERR_ATTRIBUTE_NOT_FOUND);
        }
        let ghost start_out = out@;
        out[0] = ATT_OP_READ_BY_TYPE_RSP;
        out[1] = 7;
        let ghost o0 = out@;
        assert(o0 =~= splice(start_out, 0, seq![ATT_OP_READ_BY_TYPE_RSP, 7u8]));
        let ghost rows = char_rows();
        let row1 = char_row(2, CHAR_PROP_READ, 3, GATT_UUID_DEVICE_NAME);
        let row2 = char_row(5, CHAR_PROP_INDICATE, 6, GATT_UUID_SERVICE_CHANGE);
        let (count, stop) = fill_row(out, 2, &row1, start, end, 0);
        let mut count = count;
        if !stop {
            let (c2, _stop2) = fill_row(out, 5, &row2, start, end, count);
            count = c2;
        }
        proof {
            assert(rows.skip(1) =~= seq![rows[1]]);
            assert(rows.skip(1).skip(1) =~= Seq::<(u16, Seq<u8>)>::empty());
            reveal_with_fuel(fill_rows, 3);
        }
        if count == 0 {
            return self.write_att_error(out, ATT_OP_READ_BY_TYPE_REQ, start, ATT_ERR_ATTRIBUTE_NOT_FOUND);
        }
        2 + count * 7
    }

    fn handle_att_find_info_req(&mut self, pdu: &[u8], out: &mut [u8]) -> (n: usize)
        requires
            old(out)@.len() >= 2 || !needs_two_bytes(pdu@),
            old(out)@.len() >= 1,
            pdu@.len() >= 1,
            pdu@[0] == ATT_OP_FIND_INFO_REQ,
        ensures
            final(out)@.len() == old(out)@.len(),
            n <= old(out)@.len(),
            (final(self)@, final(out)@, n as nat) == ({
                let o = find_info(old(self)@, pdu@, old(out)@);
                (o.state, o.out, o.len)
            }),
    {
        if pdu.len() < 5 {
            return self.write_att_error(out, ATT_OP_FIND_INFO_REQ, 0, ATT_ERR_INVALID_PDU);
        }
        let start = read_le16(pdu, 1);
        let end = read_le16(pdu, 3);
        let ghost start_out = out@;
        out[0] = ATT_OP_FIND_INFO_RSP;
        out[1] = 0x01;
        let ghost o0 = out@;
        assert(o0 =~= splice(start_out, 0, seq![ATT_OP_FIND_INFO_RSP, 0x01u8]));
        let ghost rows = info_rows();
        let row1 = info_row(7, GATT_UUID_CLIENT_CHAR_CFG);
        let row2 = info_row(11, GATT_UUID_CLIENT_CHAR_CFG);
        let row3 = info_row(12, GATT_UUID_CHAR_USER_DESC);
        let (c1, s1) = fill_row(out, 7, &row1, start, end, 0);
        let mut count = c1;
        if !s1 {
            let (c2, s2) = fill_row(out, 11, &row2, start, end, count);
            count = c2;
            if !s2 {
                let (c3, _s3) = fill_row(out, 12, &row3, start, end, count);
                count = c3;
            }
        }
        proof {
            assert(rows.skip(1) =~= seq![rows[1], rows[2]]);
            assert(rows.skip(1).skip(1) =~= seq![rows[2]]);
            assert(rows.skip(1).skip(1).skip(1) =~= Seq::<(u16, Seq<u8>)>::empty());
            reveal_with_fuel(fill_rows, 4);
        }
        if count == 0 {
            return self.write_att_error(out, ATT_OP_FIND_INFO_REQ, start, ATT_ERR_ATTRIBUTE_NOT_FOUND);
        }
        2 + count * 4
    }

    fn handle_att_read_req(&mut self, pdu: &[u8], out: &mut [u8]) -> (n: usize)
        requires
            old(out)@.len() >= 1,
            pdu@.len() >= 1,
            pdu@[0] == ATT_OP_READ_REQ,
        ensures
            final(out)@.len() == old(out)@.len(),
            n <= old(out)@.len(),
            (final(self)@, final(out)@, n as nat) == ({
                let o = read_request(old(self)@, pdu@, old(out)@);
                (o.state, o.out, o.len)
            }),
    {
        if pdu.len() < 3 {
            return self.write_att_error(out, ATT_OP_READ_REQ, 0, ATT_ERR_INVALID_PDU);
        }
        let handle = read_le16(pdu, 1);
        let ghost start_out = out@;
        out[0] = ATT_OP_READ_RSP;
        let ghost o0 = out@;
        assert(o0 =~= splice(start_out, 0, seq![ATT_OP_READ_RSP]));
        if handle == 3 {
            let name: [u8; 9] = [0x54, 0x4C, 0x53, 0x52, 0x2D, 0x4F, 0x54, 0x41, 0x38];
            assert(name@ =~= device_name());
            if out.len() < 10 {
                return 0;
            }
            copy_into(out, 1, &name);
            10
        } else if handle == 6 {
            if out.len() < 5 {
                return 0;
            }
            let zeros: [u8; 4] = [0, 0, 0, 0];
            assert(zeros@ =~= seq![0u8, 0, 0, 0]);
            copy_into(out, 1, &zeros);
            5
        } else if handle == 7 {
            if out.len() < 3 {
                return 0;
            }
            write_le16(out, 1, 0);
            3
        } else if handle == 11 {
            if out.len() < 3 {
                return 0;
            }
            let ccc: u16 = if self.status.ccc_enabled { 1 } else { 0 };
            write_le16(out, 1, ccc);
            3
        } else if handle == 12 {
            let d: [u8; 3] = [0x4F, 0x54, 0x41];
            assert(d@ =~= data_user_desc());
            if out.len() < 4 {
                return 0;
            }
            copy_into(out, 1, &d);
            4
        } else if handle == 10 {
            if out.len() < 2 {
                return 0;
            }
            let ghost before = out@;
            out[1] = 0;
            assert(out@ =~= splice(before, 1, seq![0u8]));
            2
        } else {
            self.write_att_error(out, ATT_OP_READ_REQ, handle, ATT_ERR_INVALID_HANDLE)
        }
    }

    fn handle_att_write_req(&mut self, pdu: &[u8], out: &mut [u8], flash_ops: &mut Vec<FlashTransfer>) -> (n: usize)
        requires
            old(out)@.len() >= 1,
            pdu@.len() >= 1,
            pdu@.len() <= u32::MAX,
            pdu@[0] == ATT_OP_WRITE_REQ,
            slot_fits(old(self)@.config),
        ensures
            final(out)@.len() == old(out)@.len(),
            n <= old(out)@.len(),
            ({
                let o = write_request(old(self)@, pdu@, old(out)@);
                &&& final(self)@ == o.state
                &&& final(out)@ == o.out
                &&& n == o.len
                &&& final(flash_ops).deep_view() == old(flash_ops).deep_view() + o.flash
            }),
    {
        if pdu.len() < 3 {
            return self.write_att_error(out, ATT_OP_WRITE_REQ, 0, ATT_ERR_INVALID_PDU);
        }
        let handle = read_le16(pdu, 1);
        let value = vstd::slice::slice_subrange(pdu, 3, pdu.len());
        assert(value@ =~= pdu@.skip(3));
        match self.process_att_write(handle, value, flash_ops) {
            Ok(r) => {
                self.queue_process_result(r);
                let ghost before = out@;
                out[0] = ATT_OP_WRITE_RSP;
                assert(out@ =~= splice(before, 0, seq![ATT_OP_WRITE_RSP]));
                1
            },
            Err(e) => {
                let code = match e {
                    OtaCommandError::InvalidLength => ATT_ERR_INVALID_PDU,
                    OtaCommandError::InvalidFlow | OtaCommandError::InvalidIndex => ATT_ERR_WRITE_NOT_PERMITTED,
                    OtaCommandError::InvalidPduLength | OtaCommandError::InvalidSize => ATT_ERR_WRITE_NOT_PERMITTED,
                    OtaCommandError::FlashWrite => ATT_ERR_WRITE_NOT_PERMITTED,
                };
                self.write_att_error(out, ATT_OP_WRITE_REQ, handle, code)
            },
        }
    }

    fn handle_att_write_cmd(&mut self, pdu: &[u8], flash_ops: &mut Vec<FlashTransfer>)
        requires
            pdu@.len() <= u32::MAX,
            slot_fits(old(self)@.config),
        ensures
            ({
                let o = write_command(old(self)@, pdu@, Seq::<u8>::empty());
                &&& final(self)@ == o.state
                &&& final(flash_ops).deep_view() == old(flash_ops).deep_view() + o.flash
            }),
    {
        if pdu.len() < 3 {
            return;
        }
        let handle = read_le16(pdu, 1);
        let value = vstd::slice::slice_subrange(pdu, 3, pdu.len());
        assert(value@ =~= pdu@.skip(3));
        if let Ok(r) = self.process_att_write(handle, value, flash_ops) {
            self.queue_process_result(r);
        }
    }

    /// Answers the ATT request `pdu` into `out`: returns the response length
    /// (0 when there is none); flash work of OTA writes is appended to
    /// `flash_ops`.
    pub fn handle_att_pdu(&mut self, pdu: &[u8], out: &mut [u8], flash_ops: &mut Vec<FlashTransfer>) -> (n: usize)
        requires
            old(out)@.len() != 1 || !needs_two_bytes(pdu@),
            pdu@.len() <= u32::MAX,
            slot_fits(old(self)@.config),
        ensures
            final(out)@.len() == old(out)@.len(),
            n <= old(out)@.len(),
            ({
                let o = att_request(old(self)@, pdu@, old(out)@);
                &&& final(self)@ == o.state
                &&& final(out)@ == o.out
                &&& n == o.len
                &&& final(flash_ops).deep_view() == old(flash_ops).deep_view() + o.flash
            }),
    {
        if pdu.len() == 0 || out.len() == 0 {
            return 0;
        }
        let op = pdu[0];
        if op == ATT_OP_EXCHANGE_MTU_REQ {
            self.handle_att_exchange_mtu_req(pdu, out)
        } else if op == ATT_OP_READ_BY_GROUP_TYPE_REQ {
            self.handle_att_read_by_group_type_req(pdu, out)
        } else if op == ATT_OP_READ_BY_TYPE_REQ {
            self.handle_att_read_by_type_req(pdu, out)
        } else if op == ATT_OP_FIND_INFO_REQ {
            self.handle_att_find_info_req(pdu, out)
        } else if op == ATT_OP_READ_REQ {
            self.handle_att_read_req(pdu, out)
        } else if op == ATT_OP_WRITE_REQ {
            self.handle_att_write_req(pdu, out, flash_ops)
        } else if op == ATT_OP_WRITE_CMD {
            self.handle_att_write_cmd(pdu, flash_ops);
            0
        } else {
            self.write_att_error(out, op, 0, ATT_ERR_INVALID_PDU)
        }
    }
}

// ---------------------------------------------------------------------------
// Connection following and link state, as functions of the state
// ---------------------------------------------------------------------------

/// RX and RX_DR: a connectable advertising event heard a reply.
pub const CONNECTABLE_RX_BITS: u16 = 0x0201;
/// Ticks from arming a listen to the start of the receive window.
pub const CONN_LISTEN_DELAY_TICKS: u32 = 2560;

/// The radio settings of a connection's data channel.
pub open spec fn data_config(channel: u8, access_addr: u32, crc: [u8; 3]) -> BleConfig {
    BleConfig { channel, access_code: access_addr, crc, power: RadioPower(RadioPower::PLUS_3P23_DBM) }
}

/// Following a new connection: listen on the channel of event 0 shortly
/// after `now`, event 1 next.
pub open spec fn arm_listen(s: OtaView, c: OtaConnectIndSummary, now: u32) -> (OtaView, Seq<RegOp>) {
    let channel = data_channel(c.channel_map, c.hop, 0);
    (
        OtaView {
            conn_data_channel: channel,
            conn_schedule: Some(
                OtaConnSchedule {
                    access_addr: c.access_addr,
                    crc_init: c.crc_init,
                    channel_map: c.channel_map,
                    hop: c.hop,
                    interval_us: (c.interval * 1250) as u32,
                    event_counter: 1,
                    last_arm_tick: now,
                },
            ),
            ..s
        },
        ble_config_ops(data_config(channel, c.access_addr, c.crc_init)) + scheduled_command_ops(
            RF_CMD_BRX,
            ((now + CONN_LISTEN_DELAY_TICKS) % 0x1_0000_0000) as u32,
        ),
    )
}

/// Whether the next connection event is due: a schedule with a non-zero
/// interval whose last listen is more than an interval ago.
pub open spec fn rearm_due(s: OtaView, now: u32) -> bool {
    match s.conn_schedule {
        Some(sc) => sc.interval_us != 0 && elapsed(now, sc.last_arm_tick) > (sc.interval_us as int * 16) % 0x1_0000_0000,
        None => false,
    }
}

/// Listening for the next connection event when it is due.
pub open spec fn rearm_listen(s: OtaView, now: u32) -> (OtaView, bool, Seq<RegOp>) {
    match s.conn_schedule {
        Some(sc) => if rearm_due(s, now) {
            let channel = data_channel(sc.channel_map, sc.hop, sc.event_counter);
            (
                OtaView {
                    conn_data_channel: channel,
                    conn_schedule: Some(
                        OtaConnSchedule {
                            event_counter: ((sc.event_counter + 1) % 0x1_0000) as u16,
                            last_arm_tick: now,
                            ..sc
                        },
                    ),
                    ..s
                },
                true,
                ble_config_ops(data_config(channel, sc.access_addr, sc.crc_init)) + scheduled_command_ops(
                    RF_CMD_BRX,
                    ((now + CONN_LISTEN_DELAY_TICKS) % 0x1_0000_0000) as u32,
                ),
            )
        } else {
            (s, false, Seq::empty())
        },
        None => (s, false, Seq::empty()),
    }
}

/// Whether sending `len` bytes from `addr` on the current data channel
/// starts.
pub open spec fn send_ok(s: OtaView, addr: usize, len: usize) -> bool {
    s.conn_schedule is Some && s.conn_data_channel <= 39 && tx_buffer_error(addr, len) is None
}

/// The register writes of an immediate transmission on the data channel.
pub open spec fn send_ops(s: OtaView, addr: usize, len: usize) -> Seq<RegOp> {
    match s.conn_schedule {
        None => Seq::empty(),
        Some(sc) => {
            let cfg = data_config(s.conn_data_channel, sc.access_addr, sc.crc_init);
            if s.conn_data_channel > 39 {
                seq![crate::radio::power_op(cfg.power)]
            } else if tx_buffer_error(addr, len) is Some {
                ble_config_ops(cfg)
            } else {
                ble_config_ops(cfg) + buffer_ops(REG_DMA3_ADDR, REG_DMA3_ADDR_HI, addr) + immediate_command_ops(
                    RF_CMD_STX2RX,
                )
            }
        },
    }
}

/// The link state after a round: a scan request for us is activity; a
/// CONNECT_IND heard by a connectable event connects (or is activity when
/// already connected); a connection silent for longer than the hold time
/// drops back to advertising.
pub open spec fn link_update(
    s: OtaView,
    adv_event: Option<BeaconEventResult>,
    rx_meta: Option<BeaconRxMeta>,
    connect_ind_seen: bool,
    now: u32,
) -> (OtaView, OtaLinkTransition) {
    if rx_meta matches Some(m) && m.pdu_type == BLE_PDU_SCAN_REQ && m.target_match {
        (s, OtaLinkTransition::Activity)
    } else if adv_event matches Some(e) && (e.last_irq & CONNECTABLE_RX_BITS) != 0 && connect_ind_seen {
        (
            OtaView { last_link_activity_tick: now, link_state: OtaLinkState::Connected, ..s },
            if s.link_state == OtaLinkState::Advertising {
                OtaLinkTransition::Connected
            } else {
                OtaLinkTransition::Activity
            },
        )
    } else if s.link_state == OtaLinkState::Connected && elapsed(now, s.last_link_activity_tick) > (
    s.config.connection_hold_us as int * 16) % 0x1_0000_0000 {
        (OtaView { link_state: OtaLinkState::Advertising, conn_schedule: None, ..s }, OtaLinkTransition::Disconnected)
    } else {
        (s, OtaLinkTransition::NoChange)
    }
}

pub open spec fn no_att_response() -> OtaAttResponseReport {
    OtaAttResponseReport { built: false, rsp_opcode: 0, tx_attempted: false, tx_ok: false }
}

/// The state, report, transmit frame, flash work and register writes after
/// a data-channel reception.
pub struct ConnAttOutcome {
    pub state: OtaView,
    pub report: OtaAttResponseReport,
    pub frame: Seq<u8>,
    pub flash: Seq<FlashTransferView>,
    pub ops: Seq<RegOp>,
}

/// Whether `p` carries an L2CAP ATT PDU that the report marks as an ATT
/// request.
pub open spec fn carries_att(p: Seq<u8>, report: OtaConnDataReport) -> bool {
    report.rx && report.llid == 2 && report.att_opcode != 0 && p.len() >= 11 && le16_at(p, 8) == 4 && le16_at(p, 6)
        >= 1 && p.len() >= 10 + le16_at(p, 6)
}

/// A received ATT request answered into a 64-byte buffer (or else the
/// pending notification sent), framed into an 80-byte transmit buffer at
/// `tx_addr` and sent at once on the data channel.
pub open spec fn connection_att(s: OtaView, p: Seq<u8>, report: OtaConnDataReport, tx_addr: usize) -> ConnAttOutcome {
    if !carries_att(p, report) {
        ConnAttOutcome { state: s, report: no_att_response(), frame: Seq::empty(), flash: Seq::empty(), ops: Seq::empty() }
    } else {
        let req = p.subrange(10, 10 + le16_at(p, 6));
        let o = att_request(s, req, Seq::new(64, |i: int| 0u8));
        let (s2, buf, n) = if o.len == 0 { pending_notification(o.state, o.out) } else { (o.state, o.out, o.len) };
        let rsp = buf.take(n as int);
        if n == 0 {
            ConnAttOutcome { state: s2, report: no_att_response(), frame: Seq::empty(), flash: o.flash, ops: Seq::empty() }
        } else if !ll_att_fits(rsp, 80) {
            ConnAttOutcome {
                state: s2,
                report: OtaAttResponseReport { built: true, rsp_opcode: buf[0], tx_attempted: false, tx_ok: false },
                frame: Seq::empty(),
                flash: o.flash,
                ops: Seq::empty(),
            }
        } else {
            let frame = ll_att_frame(rsp);
            ConnAttOutcome {
                state: s2,
                report: OtaAttResponseReport {
                    built: true,
                    rsp_opcode: buf[0],
                    tx_attempted: true,
                    tx_ok: send_ok(s2, tx_addr, frame.len() as usize),
                },
                frame,
                flash: o.flash,
                ops: send_ops(s2, tx_addr, frame.len() as usize),
            }
        }
    }
}

/// The advertiser settings of the peripheral: the default beacon timing on
/// channels 37 to 39, connectable, at the configured interval and power.
pub open spec fn ota_beacon_config(bc: BeaconConfig, config: OtaBootConfig) -> bool {
    &&& bc.interval_us == config.adv_interval_us
    &&& bc.tx_timeout_us == 4_000
    &&& bc.channel_settle_us == 180
    &&& bc.channels@ == seq![37u8, 38u8, 39u8]
    &&& bc.power == config.adv_power
    &&& bc.connectable
}

/// The state of a new peripheral at tick `now`.
pub open spec fn initial_view(v: OtaView, config: OtaBootConfig, now: u32) -> bool {
    &&& v.config == config
    &&& v.status == OtaStatus::initial(config.firmware_version)
    &&& v.erased_until == config.app_slot_base
    &&& v.mtu == ATT_MTU_DEFAULT
    &&& v.pending == Seq::<u8>::empty()
    &&& v.link_state == OtaLinkState::Advertising
    &&& v.last_link_activity_tick == now
    &&& v.conn_data_channel == 0
    &&& v.conn_schedule is None
    &&& ota_beacon_config(v.beacon_config, config)
    &&& v.beacon_packet == adv_packet(config.adv_addr_le@, ota_adv_data())
    &&& v.beacon_next_event_at == (now as int - config.adv_interval_us as int) % 0x1_0000_0000
}

/// What the receiving half of a round does: the activity mark and the ATT
/// exchange on the data channel.
pub open spec fn receive_round(
    s: OtaView,
    now: u32,
    rx_meta: Option<BeaconRxMeta>,
    p: Seq<u8>,
    tx_addr: usize,
) -> ConnAttOutcome {
    let report = conn_data_report(s.link_state == OtaLinkState::Connected, s.conn_schedule is Some, rx_meta, p);
    let s1 = if report.rx { OtaView { last_link_activity_tick: now, ..s } } else { s };
    if p.len() != 0 {
        connection_att(s1, p, report, tx_addr)
    } else {
        ConnAttOutcome { state: s1, report: no_att_response(), frame: Seq::empty(), flash: Seq::empty(), ops: Seq::empty() }
    }
}

/// What the link half of a round does: follow a new connection, listen for
/// the next connection event, update the link state. Gives the state,
/// whether a listen was armed, the register writes and the transition.
pub open spec fn link_round(
    s: OtaView,
    connect_ind: Option<OtaConnectIndSummary>,
    adv_event: Option<BeaconEventResult>,
    rx_meta: Option<BeaconRxMeta>,
    now: u32,
) -> (OtaView, bool, Seq<RegOp>, OtaLinkTransition) {
    let (s3, arm_ops) = match connect_ind {
        Some(c) => arm_listen(s, c, now),
        None => (s, Seq::empty()),
    };
    let (s4, rearmed, rearm_ops) = if s3.link_state == OtaLinkState::Connected {
        rearm_listen(s3, now)
    } else {
        (s3, false, Seq::empty())
    };
    let (s5, t) = link_update(s4, adv_event, rx_meta, connect_ind is Some, now);
    (s5, connect_ind is Some || rearmed, arm_ops + rearm_ops, t)
}

impl OtaPeripheral {
    /// A peripheral advertising the OTA service with `config`; `now` is the
    /// current system tick.
    pub fn new(radio: Radio, config: OtaBootConfig, now: u32) -> (r: Result<Self, BeaconError>)
        ensures
            r is Ok,
            r matches Ok(p) ==> initial_view(p@, config, now),
    {
        let (adv_data, adv_len) = build_adv_data();
        let d = BeaconConfig::default();
        let bc = BeaconConfig {
            interval_us: config.adv_interval_us,
            tx_timeout_us: d.tx_timeout_us,
            channel_settle_us: d.channel_settle_us,
            channels: d.channels,
            power: config.adv_power,
            connectable: true,
        };
        let data = vstd::slice::slice_subrange(vstd::array::array_as_slice(&adv_data), 0, adv_len);
        assert(data@ =~= ota_adv_data());
        let beacon = match BeaconAdvertiser::new(radio, bc, config.adv_addr_le, data, now) {
            Ok(b) => b,
            Err(e) => {
                return Err(e);
            },
        };
        let p = OtaPeripheral {
            advertiser: beacon,
            flash: Flash::new(),
            config,
            status: OtaStatus::new(config.firmware_version),
            erased_until: config.app_slot_base,
            mtu: ATT_MTU_DEFAULT,
            pending_notify: Vec::new(),
            link_state: OtaLinkState::Advertising,
            last_link_activity_tick: now,
            conn_data_channel: 0,
            conn_schedule: None,
        };
        assert(p.pending_notify@ =~= Seq::<u8>::empty());
        Ok(p)
    }

    /// Brings the radio up for advertising.
    pub fn init(&mut self, ops: &mut Vec<RegOp>) -> (r: Result<(), BeaconError>)
        ensures
            final(self)@ == old(self)@,
            (old(self)@.beacon_config.channels[0] > 39) <==> r is Err,
            r is Ok ==> final(ops)@ == old(ops)@ + beacon_init_ops(old(self)@.beacon_config),
    {
        self.advertiser.init(ops)
    }

    pub fn status(&self) -> (s: OtaStatus)
        ensures
            s == self@.status,
    {
        self.status
    }

    /// The configuration the peripheral was made with.
    pub fn boot_config(&self) -> (c: OtaBootConfig)
        ensures
            c == self@.config,
    {
        self.config
    }

    pub fn adv_addr_le(&self) -> (a: [u8; 6])
        ensures
            a == self@.config.adv_addr_le,
    {
        self.config.adv_addr_le
    }

    pub fn adv_power(&self) -> (p: RadioPower)
        ensures
            p == self@.config.adv_power,
    {
        self.config.adv_power
    }

    pub fn link_state(&self) -> (l: OtaLinkState)
        ensures
            l == self@.link_state,
    {
        self.link_state
    }

    pub fn radio(&self) -> (r: &Radio) {
        self.advertiser.radio()
    }

    pub fn radio_mut(&mut self) -> (r: &mut Radio)
        ensures
            final(self)@ == old(self)@,
    {
        self.advertiser.radio_mut()
    }

    /// When an advertising event is due at `now`, counts the next interval
    /// from `now` and starts a burst over the advertising channels;
    /// [`Self::advertising_step`] runs it.
    pub fn run_event_if_due(&mut self, now: u32) -> (r: Option<BeaconBurst>)
        ensures
            r == (if elapsed(now, old(self)@.beacon_next_event_at) > (old(self)@.beacon_config.interval_us as int * 16)
                % 0x1_0000_0000 {
                Some(BeaconBurst::start(old(self)@.beacon_config.channels))
            } else {
                None::<BeaconBurst>
            }),
            final(self)@ == (OtaView {
                beacon_next_event_at: if r is Some { now } else { old(self)@.beacon_next_event_at },
                ..old(self)@
            }),
    {
        self.advertiser.run_event_if_due(now)
    }

    /// One step of an advertising burst; see [`BeaconAdvertiser::burst_step`].
    pub fn advertising_step(&mut self, burst: &mut BeaconBurst, tx_addr: usize, ops: &mut Vec<RegOp>, ev: BurstEvent) -> (a:
        BurstAction)
        requires
            burst_wf(*old(burst)),
        ensures
            ({
                let n = burst_next(*old(burst), old(self)@.beacon_config, tx_addr, ev);
                &&& *final(burst) == n.0
                &&& final(ops)@ == old(ops)@ + n.1
                &&& a == n.2
            }),
            burst_wf(*final(burst)),
            a matches BurstAction::Finished(r) ==> result_wf(r, old(burst).progress.channels),
            final(self)@ == old(self)@,
    {
        self.advertiser.burst_step(burst, tx_addr, ops, ev)
    }

    /// Starts following the connection that `summary` opened.
    fn arm_connection_data_listen(&mut self, summary: OtaConnectIndSummary, now: u32, ops: &mut Vec<RegOp>) -> (armed: bool)
        ensures
            armed,
            final(self)@ == arm_listen(old(self)@, summary, now).0,
            final(ops)@ == old(ops)@ + arm_listen(old(self)@, summary, now).1,
    {
        let ghost start = ops@;
        let channel = pick_data_channel(summary.channel_map, summary.hop, 0);
        proof {
            lemma_data_channel_is_used(summary.channel_map, summary.hop, 0);
        }
        let radio = self.advertiser.radio_mut();
        match radio.apply_ble_config(ops, BleConfig::data(channel, summary.access_addr, summary.crc_init)) {
            Ok(()) => {},
            Err(_) => {
                return false;
            },
        }
        let at = now.wrapping_add(32 * 80);
        radio.start_brx_at(ops, at);
        self.conn_data_channel = channel;
        self.conn_schedule = Some(
            OtaConnSchedule {
                access_addr: summary.access_addr,
                crc_init: summary.crc_init,
                channel_map: summary.channel_map,
                hop: summary.hop,
                interval_us: conn_interval_us(summary.interval),
                event_counter: 1,
                last_arm_tick: now,
            },
        );
        assert(ops@ =~= start + arm_listen(old(self)@, summary, now).1);
        true
    }

    /// Listens for the next connection event when it is due.
    fn maybe_rearm_connection_data_listen(&mut self, now: u32, ops: &mut Vec<RegOp>) -> (armed: bool)
        ensures
            final(self)@ == rearm_listen(old(self)@, now).0,
            armed == rearm_listen(old(self)@, now).1,
            final(ops)@ == old(ops)@ + rearm_listen(old(self)@, now).2,
    {
        let ghost start = ops@;
        let mut sched = match self.conn_schedule {
            Some(s) => s,
            None => {
                return false;
            },
        };
        if sched.interval_us == 0 || !clock_time_exceed_us(now, sched.last_arm_tick, sched.interval_us) {
            assert(ops@ =~= start + Seq::<RegOp>::empty());
            return false;
        }
        let channel = pick_data_channel(sched.channel_map, sched.hop, sched.event_counter);
        proof {
            lemma_data_channel_is_used(sched.channel_map, sched.hop, sched.event_counter);
        }
        let radio = self.advertiser.radio_mut();
        match radio.apply_ble_config(ops, BleConfig::data(channel, sched.access_addr, sched.crc_init)) {
            Ok(()) => {},
            Err(_) => {
                return false;
            },
        }
        let at = now.wrapping_add(32 * 80);
        radio.start_brx_at(ops, at);
        sched.event_counter = sched.event_counter.wrapping_add(1);
        sched.last_arm_tick = now;
        self.conn_data_channel = channel;
        self.conn_schedule = Some(sched);
        assert(ops@ =~= start + rearm_listen(old(self)@, now).2);
        true
    }

    /// Sends the `len`-byte frame at `addr` right away on the connection's
    /// data channel, then listens.
    fn try_send_connection_data_now(&mut self, addr: usize, len: usize, ops: &mut Vec<RegOp>) -> (ok: bool)
        ensures
            final(self)@ == old(self)@,
            ok == send_ok(old(self)@, addr, len),
            final(ops)@ == old(ops)@ + send_ops(old(self)@, addr, len),
    {
        let ghost start = ops@;
        let sched = match self.conn_schedule {
            Some(s) => s,
            None => {
                assert(ops@ =~= start + Seq::<RegOp>::empty());
                return false;
            },
        };
        let channel = self.conn_data_channel;
        let radio = self.advertiser.radio_mut();
        match radio.apply_ble_config(ops, BleConfig::data(channel, sched.access_addr, sched.crc_init)) {
            Ok(()) => {},
            Err(_) => {
                assert(ops@ =~= start + send_ops(old(self)@, addr, len));
                return false;
            },
        }
        let ghost mid = ops@;
        let r = radio.start_stx2rx_now(ops, addr, len);
        match r {
            Ok(()) => {
                assert(ops@ =~= start + send_ops(old(self)@, addr, len));
                true
            },
            Err(_) => {
                assert(ops@ =~= start + send_ops(old(self)@, addr, len));
                false
            },
        }
    }

    /// Updates the link state after a round at `now`.
    fn update_link_state(
        &mut self,
        adv_event: Option<BeaconEventResult>,
        rx_meta: Option<BeaconRxMeta>,
        connect_ind_seen: bool,
        now: u32,
    ) -> (t: OtaLinkTransition)
        ensures
            (final(self)@, t) == link_update(old(self)@, adv_event, rx_meta, connect_ind_seen, now),
    {
        if let Some(meta) = rx_meta {
            if meta.pdu_type == BLE_PDU_SCAN_REQ && meta.target_match {
                return OtaLinkTransition::Activity;
            }
        }
        if let Some(event) = adv_event {
            if (event.last_irq & CONNECTABLE_RX_BITS) != 0 && connect_ind_seen {
                self.last_link_activity_tick = now;
                let transition = if self.link_state == OtaLinkState::Advertising {
                    OtaLinkTransition::Connected
                } else {
                    OtaLinkTransition::Activity
                };
                self.link_state = OtaLinkState::Connected;
                return transition;
            }
        }
        if self.link_state == OtaLinkState::Connected && clock_time_exceed_us(
            now,
            self.last_link_activity_tick,
            self.config.connection_hold_us,
        ) {
            self.link_state = OtaLinkState::Advertising;
            self.conn_schedule = None;
            return OtaLinkTransition::Disconnected;
        }
        OtaLinkTransition::NoChange
    }

    /// Answers an ATT request received on the data channel and starts
    /// sending the response, framed, from the transmit buffer at `tx_addr`;
    /// returns the report and the frame to place in that buffer.
    pub fn handle_att_on_connection_data(
        &mut self,
        packet: &[u8],
        report: OtaConnDataReport,
        tx_addr: usize,
        ops: &mut Vec<RegOp>,
        flash_ops: &mut Vec<FlashTransfer>,
    ) -> (r: (OtaAttResponseReport, Vec<u8>))
        requires
            slot_fits(old(self)@.config),
        ensures
            ({
                let o = connection_att(old(self)@, packet@, report, tx_addr);
                &&& final(self)@ == o.state
                &&& r.0 == o.report
                &&& r.1@ == o.frame
                &&& final(flash_ops).deep_view() == old(flash_ops).deep_view() + o.flash
                &&& final(ops)@ == old(ops)@ + o.ops
            }),
    {
        let none = OtaAttResponseReport { built: false, rsp_opcode: 0, tx_attempted: false, tx_ok: false };
        if !report.rx || report.llid != 0x02 || report.att_opcode == 0 {
            assert(ops@ =~= old(ops)@ + Seq::<RegOp>::empty());
            return (none, Vec::new());
        }
        if packet.len() < 11 {
            return (none, Vec::new());
        }
        let l2cap_len = read_le16(packet, 6) as usize;
        let cid = read_le16(packet, 8);
        if cid != 0x0004 {
            return (none, Vec::new());
        }
        if packet.len() < 10 + l2cap_len || l2cap_len == 0 {
            return (none, Vec::new());
        }
        let att_req = vstd::slice::slice_subrange(packet, 10, 10 + l2cap_len);
        let mut att_rsp: Vec<u8> = vec![0u8; 64];
        assert(att_rsp@ =~= Seq::new(64, |i: int| 0u8));
        let ghost s0 = self@;
        let mut rsp_len = self.handle_att_pdu(att_req, att_rsp.as_mut_slice(), flash_ops);
        let ghost o = att_request(s0, packet@.subrange(10, 10 + le16_at(packet@, 6)), Seq::new(64, |i: int| 0u8));
        assert(att_req@ =~= packet@.subrange(10, 10 + le16_at(packet@, 6)));
        if rsp_len == 0 {
            rsp_len = self.take_pending_notify(att_rsp.as_mut_slice());
        }
        if rsp_len == 0 {
            assert(ops@ =~= old(ops)@ + Seq::<RegOp>::empty());
            return (none, Vec::new());
        }
        let mut tx_packet: Vec<u8> = vec![0u8; 80];
        let rsp = vstd::slice::slice_subrange(att_rsp.as_slice(), 0, rsp_len);
        let tx_len = build_ll_att_tx_packet(rsp, tx_packet.as_mut_slice());
        if tx_len == 0 {
            assert(ops@ =~= old(ops)@ + Seq::<RegOp>::empty());
            return (OtaAttResponseReport { built: true, rsp_opcode: att_rsp[0], tx_attempted: false, tx_ok: false }, Vec::new());
        }
        let frame = vstd::slice::slice_to_vec(vstd::slice::slice_subrange(tx_packet.as_slice(), 0, tx_len));
        assert(frame@ =~= ll_att_frame(rsp@));
        let tx_ok = self.try_send_connection_data_now(tx_addr, tx_len, ops);
        (OtaAttResponseReport { built: true, rsp_opcode: att_rsp[0], tx_attempted: true, tx_ok }, frame)
    }

    fn receive_part(
        &mut self,
        now: u32,
        rx_meta: Option<BeaconRxMeta>,
        rx_packet: &[u8],
        tx_addr: usize,
        ops: &mut Vec<RegOp>,
        flash_ops: &mut Vec<FlashTransfer>,
    ) -> (r: (OtaConnDataReport, OtaAttResponseReport, Vec<u8>))
        requires
            slot_fits(old(self)@.config),
        ensures
            r.0 == conn_data_report(
                old(self)@.link_state == OtaLinkState::Connected,
                old(self)@.conn_schedule is Some,
                rx_meta,
                rx_packet@,
            ),
            ({
                let ca = receive_round(old(self)@, now, rx_meta, rx_packet@, tx_addr);
                &&& final(self)@ == ca.state
                &&& r.1 == ca.report
                &&& r.2@ == ca.frame
                &&& final(flash_ops).deep_view() == old(flash_ops).deep_view() + ca.flash
                &&& final(ops)@ == old(ops)@ + ca.ops
            }),
    {
        let has_packet = rx_packet.len() != 0;
        let conn_data = parse_connection_data_report(
            self.link_state == OtaLinkState::Connected,
            self.conn_schedule.is_some(),
            rx_meta,
            if has_packet { Some(rx_packet) } else { None },
        );
        assert(opt_bytes(if has_packet { Some(rx_packet) } else { None }) =~= rx_packet@);
        if conn_data.rx {
            self.last_link_activity_tick = now;
        }
        if has_packet {
            let (a, f) = self.handle_att_on_connection_data(rx_packet, conn_data, tx_addr, ops, flash_ops);
            (conn_data, a, f)
        } else {
            assert(flash_ops.deep_view() =~= old(flash_ops).deep_view() + Seq::<FlashTransferView>::empty());
            assert(ops@ =~= old(ops)@ + Seq::<RegOp>::empty());
            (conn_data, OtaAttResponseReport { built: false, rsp_opcode: 0, tx_attempted: false, tx_ok: false }, Vec::new())
        }
    }

    fn link_part(
        &mut self,
        connect_ind: Option<OtaConnectIndSummary>,
        adv_event: Option<BeaconEventResult>,
        rx_meta: Option<BeaconRxMeta>,
        now: u32,
        ops: &mut Vec<RegOp>,
    ) -> (r: (bool, OtaLinkTransition))
        ensures
            ({
                let (s5, armed, link_ops, t) = link_round(old(self)@, connect_ind, adv_event, rx_meta, now);
                &&& final(self)@ == s5
                &&& r.0 == armed
                &&& r.1 == t
                &&& final(ops)@ == old(ops)@ + link_ops
            }),
    {
        let ghost ops0 = ops@;
        let mut conn_listen_armed = false;
        if let Some(summary) = connect_ind {
            conn_listen_armed = self.arm_connection_data_listen(summary, now, ops);
        }
        let ghost ops1 = ops@;
        if self.link_state == OtaLinkState::Connected {
            if self.maybe_rearm_connection_data_listen(now, ops) {
                conn_listen_armed = true;
            }
        }
        let ghost ops2 = ops@;
        assert(ops2 =~= ops0 + ops1.skip(ops0.len() as int) + ops2.skip(ops1.len() as int));
        let transition = self.update_link_state(adv_event, rx_meta, connect_ind.is_some(), now);
        (conn_listen_armed, transition)
    }

    /// One scheduling round at tick `now`, after the caller ran the
    /// advertising event (`adv_event`, when one was due) and read what the
    /// receiver got (`rx_meta`, `rx_packet`, empty when nothing): follows
    /// connections, answers ATT requests (the response frame to place at
    /// `tx_addr` is returned beside the report) and updates the link state.
    pub fn run_once(
        &mut self,
        now: u32,
        adv_event: Option<BeaconEventResult>,
        rx_meta: Option<BeaconRxMeta>,
        rx_packet: &[u8],
        tx_addr: usize,
        ops: &mut Vec<RegOp>,
        flash_ops: &mut Vec<FlashTransfer>,
    ) -> (r: (OtaRunResult, Vec<u8>))
        requires
            slot_fits(old(self)@.config),
        ensures
            r.0.adv_event == adv_event,
            r.0.rx_meta == rx_meta,
            r.0.connect_ind is Some <==> (rx_packet@.len() != 0 && is_connect_ind(rx_meta, rx_packet@)),
            r.0.connect_ind matches Some(c) ==> connect_ind_fields(c, rx_packet@),
            ({
                let report = conn_data_report(
                    old(self)@.link_state == OtaLinkState::Connected,
                    old(self)@.conn_schedule is Some,
                    rx_meta,
                    rx_packet@,
                );
                &&& r.0.conn_data_rx == report.rx
                &&& r.0.conn_data_llid == report.llid
                &&& r.0.conn_data_len == report.len
                &&& r.0.conn_ll_ctrl_rx == (report.ll_ctrl_opcode != 0)
                &&& r.0.conn_ll_ctrl_opcode == report.ll_ctrl_opcode
                &&& r.0.conn_att_rx == (report.att_opcode != 0)
                &&& r.0.conn_att_opcode == report.att_opcode
            }),
            ({
                let ca = receive_round(old(self)@, now, rx_meta, rx_packet@, tx_addr);
                let (s5, armed, link_ops, t) = link_round(ca.state, r.0.connect_ind, adv_event, rx_meta, now);
                &&& final(self)@ == s5
                &&& r.0.conn_att_rsp_built == ca.report.built
                &&& r.0.conn_att_rsp_opcode == ca.report.rsp_opcode
                &&& r.0.conn_att_tx_attempted == ca.report.tx_attempted
                &&& r.0.conn_att_tx_ok == ca.report.tx_ok
                &&& r.1@ == ca.frame
                &&& r.0.conn_listen_armed == armed
                &&& r.0.conn_data_channel == s5.conn_data_channel
                &&& r.0.link_state == s5.link_state
                &&& r.0.transition == t
                &&& final(flash_ops).deep_view() == old(flash_ops).deep_view() + ca.flash
                &&& final(ops)@ == old(ops)@ + ca.ops + link_ops
            }),
    {
        let ghost ops0 = ops@;
        let (conn_data, att_rsp, frame) = self.receive_part(now, rx_meta, rx_packet, tx_addr, ops, flash_ops);
        let ghost ops1 = ops@;
        let connect_ind = if rx_packet.len() != 0 { parse_connect_ind_summary(rx_meta, rx_packet) } else { None };
        let (conn_listen_armed, transition) = self.link_part(connect_ind, adv_event, rx_meta, now, ops);
        assert(ops@ =~= ops0 + ops1.skip(ops0.len() as int) + ops@.skip(ops1.len() as int));
        let result = OtaRunResult {
            adv_event,
            rx_meta,
            connect_ind,
            conn_listen_armed,
            conn_data_channel: self.conn_data_channel,
            conn_data_rx: conn_data.rx,
            conn_data_llid: conn_data.llid,
            conn_data_len: conn_data.len,
            conn_ll_ctrl_rx: conn_data.ll_ctrl_opcode != 0,
            conn_ll_ctrl_opcode: conn_data.ll_ctrl_opcode,
            conn_att_rx: conn_data.att_opcode != 0,
            conn_att_opcode: conn_data.att_opcode,
            conn_att_rsp_built: att_rsp.built,
            conn_att_rsp_opcode: att_rsp.rsp_opcode,
            conn_att_tx_attempted: att_rsp.tx_attempted,
            conn_att_tx_ok: att_rsp.tx_ok,
            link_state: self.link_state,
            transition,
        };
        (result, frame)
    }
}

// ---------------------------------------------------------------------------
// Laws of the update protocol
// ---------------------------------------------------------------------------

/// The image bytes reach the flash unchanged: the page programs of a write
/// carry exactly its bytes, in order, and none crosses a page boundary.
pub proof fn lemma_slot_programs(addr: u32, data: Seq<u8>)
    ensures
        crate::flash::programmed_bytes(slot_programs(addr, data)) == data,
        forall|i: int|
            0 <= i < slot_programs(addr, data).len() ==> #[trigger] crate::flash::within_one_page(
                slot_programs(addr, data)[i],
            ),
    decreases data.len(),
{
    if data.len() > 0 {
        let n = if data.len() < page_room(addr as int) { data.len() as int } else { page_room(addr as int) };
        let next = sat_u32(addr + n);
        lemma_slot_programs(next, data.skip(n));
        let sp = slot_programs(addr, data);
        assert(sp.skip(1) =~= slot_programs(next, data.skip(n)));
        assert(data.take(n) + data.skip(n) =~= data);
        assert forall|i: int| 0 <= i < sp.len() implies #[trigger] crate::flash::within_one_page(sp[i]) by {
            if i > 0 {
                assert(sp[i] == slot_programs(next, data.skip(n))[i - 1]);
            }
        }
    }
}

proof fn lemma_erase_end(from: u32, to: u32)
    requires
        to <= 0xFFFF_F000,
    ensures
        erase_end(from, to) >= to,
        from >= to ==> erase_end(from, to) == from,
    decreases u32::MAX - from,
{
    if from < to {
        lemma_erase_end(sat_u32(from + SECTOR_SIZE), to);
    }
}

/// An in-order chunk of a started session that fits in the slot is
/// accepted: the payload is programmed unchanged from the slot address of
/// its index, every sector it reaches is erased first, the next index is
/// expected and the byte count covers the chunk.
pub proof fn lemma_data_chunk_accepted(s: OtaView, data: Seq<u8>)
    requires
        slot_fits(s.config),
        s.status.started,
        data.len() >= 3,
        le16_at(data, 0) == s.status.expected_index,
        le16_at(data, 0) * s.status.pdu_len + data.len() - 2 <= s.config.app_slot_size,
    ensures
        ({
            let (s2, r, fl) = data_chunk(s, data);
            let offset = le16_at(data, 0) * s.status.pdu_len;
            let addr = (s.config.app_slot_base + offset) as u32;
            let programs = slot_programs(addr, data.skip(2));
            &&& r is Ok
            &&& fl.subrange(fl.len() - programs.len(), fl.len() as int) == programs
            &&& crate::flash::programmed_bytes(programs) == data.skip(2)
            &&& s2.erased_until >= addr + data.len() - 2
            &&& s2.status.expected_index == (s.status.expected_index + 1) % 0x1_0000
            &&& s2.status.highest_written_index == s.status.expected_index
            &&& s2.status.bytes_written >= offset + data.len() - 2
            &&& s2.status.bytes_written >= s.status.bytes_written
            &&& s2.status.started
            &&& s2.config == s.config
        }),
{
    let (s2, r, fl) = data_chunk(s, data);
    let idx = le16_at(data, 0);
    let payload = data.skip(2);
    let offset = idx * s.status.pdu_len;
    let addr = (s.config.app_slot_base + offset) as u32;
    let top = (addr + payload.len()) as u32;
    let needed = align_up_spec(top, SECTOR_SIZE as u32) as u32;
    lemma_align_up(top, 4096);
    lemma_erase_end(s.erased_until, needed);
    lemma_slot_programs(addr, payload);
    let programs = slot_programs(addr, payload);
    let er = erase_run(s.erased_until, needed);
    assert(fl == er + programs);
    assert((er + programs).subrange(er.len() as int, (er + programs).len() as int) =~= programs);
}

/// A queued notification is what the next send puts on the air: a Handle
/// Value Notification of the OTA data value carrying it; afterwards nothing
/// is pending.
pub proof fn lemma_notify_round_trip(s: OtaView, payload: Seq<u8>, out: Seq<u8>)
    requires
        0 < payload.len() <= 8,
        out.len() >= payload.len() + 3,
    ensures
        ({
            let (s2, o2, n) = pending_notification(with_pending(s, payload), out);
            &&& n == payload.len() + 3
            &&& o2.take(n as int) == seq![ATT_OP_HANDLE_VALUE_NOTIF, 0x0Au8, 0x00u8] + payload
            &&& s2.pending.len() == 0
            &&& pending_notification(s2, o2).2 == 0
        }),
{
    let s1 = with_pending(s, payload);
    assert(s1.pending =~= payload);
    let (s2, o2, n) = pending_notification(s1, out);
    assert(le16_bytes(0x000A) =~= seq![0x0Au8, 0x00u8]);
    assert(o2.take(n as int) =~= seq![ATT_OP_HANDLE_VALUE_NOTIF, 0x0Au8, 0x00u8] + payload);
}

/// Closing a session at the last written chunk commits the image: the
/// metadata sector is erased and reprogrammed with a READY record of the
/// byte count, the session ends and success is notified.
pub proof fn lemma_session_end_commits(s: OtaView, data: Seq<u8>)
    requires
        data.len() >= 6,
        s.status.started,
        s.status.bytes_written > 0,
        le16_at(data, 2) == s.status.highest_written_index,
        le16_at(data, 4) == 0xFFFF - s.status.highest_written_index,
    ensures
        ({
            let (s2, r, fl) = session_end(s, data);
            &&& r == Ok::<NotifyView, OtaCommandError>(
                NotifyView { schedule: None, result: Some(seq![0x06u8, 0xFF, OTA_SUCCESS, 0]) },
            )
            &&& fl[0] == erase_view(s.config.metadata_addr)
            &&& crate::flash::programmed_bytes(fl.skip(1)) == metadata_bytes(s.status.bytes_written)
            &&& !s2.status.started
            &&& s2.status.ota_result == OTA_SUCCESS
            &&& s2.status.bytes_written == s.status.bytes_written
        }),
{
    let idx = le16_at(data, 2) as u16;
    let x = le16_at(data, 4) as u16;
    assert(x == 0xFFFF - idx);
    assert((idx ^ x) == 0xFFFFu16) by (bit_vector)
        requires
            x == 0xFFFF - idx,
    ;
    let (s2, r, fl) = session_end(s, data);
    lemma_slot_programs(s.config.metadata_addr, metadata_bytes(s.status.bytes_written));
    assert(fl.skip(1) =~= slot_programs(s.config.metadata_addr, metadata_bytes(s.status.bytes_written)));
    assert(le16_bytes(CMD_OTA_RESULT) + seq![OTA_SUCCESS, 0u8] =~= seq![0x06u8, 0xFF, OTA_SUCCESS, 0]);
}

/// A started session resets the transfer: chunk 0 is expected next and
/// nothing counts as written; the erase mark restarts at the slot base.
pub proof fn lemma_session_start_resets(s: OtaView, pdu_len: u8)
    requires
        pdu_len > 0,
        pdu_len <= 240,
        pdu_len % 16 == 0,
    ensures
        ({
            let (s2, r) = session_start(s, pdu_len);
            &&& r is Ok
            &&& s2.status.started
            &&& s2.status.pdu_len == pdu_len
            &&& s2.status.expected_index == 0
            &&& s2.status.bytes_written == 0
            &&& s2.erased_until == s.config.app_slot_base
        }),
{
}

/// The negotiated MTU is never below the ATT default.
pub proof fn lemma_mtu_at_least_default(s: OtaView, pdu: Seq<u8>, out: Seq<u8>)
    requires
        s.mtu >= ATT_MTU_DEFAULT,
    ensures
        mtu_exchange(s, pdu, out).state.mtu >= ATT_MTU_DEFAULT,
{
}


/// The peripheral's configuration never changes after it is made: no OTA
/// write, ATT request, notification, connection exchange or service round
/// touches it, so the advertising power, address and slot stay those
/// given to `new`.
pub proof fn lemma_config_fixed(
    s: OtaView,
    handle: u16,
    data: Seq<u8>,
    pdu: Seq<u8>,
    out: Seq<u8>,
    report: OtaConnDataReport,
    tx_addr: usize,
    now: u32,
    rx_meta: Option<BeaconRxMeta>,
    connect_ind: Option<OtaConnectIndSummary>,
    adv_event: Option<BeaconEventResult>,
)
    ensures
        att_write(s, handle, data).0.config == s.config,
        att_request(s, pdu, out).state.config == s.config,
        pending_notification(s, out).0.config == s.config,
        connection_att(s, pdu, report, tx_addr).state.config == s.config,
        receive_round(s, now, rx_meta, pdu, tx_addr).state.config == s.config,
        link_round(s, connect_ind, adv_event, rx_meta, now).0.config == s.config,
{
    lemma_round_keeps_config_and_link(s, handle, data, pdu, out, report, tx_addr, now, rx_meta);
}

proof fn lemma_write_keeps_config_and_link(s: OtaView, handle: u16, data: Seq<u8>)
    ensures
        att_write(s, handle, data).0.config == s.config,
        att_write(s, handle, data).0.link_state == s.link_state,
{
}

proof fn lemma_request_keeps_config_and_link(s: OtaView, pdu: Seq<u8>, out: Seq<u8>)
    ensures
        att_request(s, pdu, out).state.config == s.config,
        att_request(s, pdu, out).state.link_state == s.link_state,
{
}

proof fn lemma_notify_keeps_config_and_link(s: OtaView, out: Seq<u8>)
    ensures
        pending_notification(s, out).0.config == s.config,
        pending_notification(s, out).0.link_state == s.link_state,
{
}

proof fn lemma_connection_keeps_config_and_link(s: OtaView, pdu: Seq<u8>, report: OtaConnDataReport, tx_addr: usize)
    ensures
        connection_att(s, pdu, report, tx_addr).state.config == s.config,
        connection_att(s, pdu, report, tx_addr).state.link_state == s.link_state,
{
}

proof fn lemma_round_keeps_config_and_link(
    s: OtaView,
    handle: u16,
    data: Seq<u8>,
    pdu: Seq<u8>,
    out: Seq<u8>,
    report: OtaConnDataReport,
    tx_addr: usize,
    now: u32,
    rx_meta: Option<BeaconRxMeta>,
)
    ensures
        att_write(s, handle, data).0.config == s.config,
        att_write(s, handle, data).0.link_state == s.link_state,
        att_request(s, pdu, out).state.config == s.config,
        att_request(s, pdu, out).state.link_state == s.link_state,
        pending_notification(s, out).0.config == s.config,
        pending_notification(s, out).0.link_state == s.link_state,
        connection_att(s, pdu, report, tx_addr).state.config == s.config,
        connection_att(s, pdu, report, tx_addr).state.link_state == s.link_state,
        receive_round(s, now, rx_meta, pdu, tx_addr).state.config == s.config,
{
    lemma_write_keeps_config_and_link(s, handle, data);
    lemma_request_keeps_config_and_link(s, pdu, out);
    lemma_notify_keeps_config_and_link(s, out);
    lemma_connection_keeps_config_and_link(s, pdu, report, tx_addr);
    let r = conn_data_report(s.link_state == OtaLinkState::Connected, s.conn_schedule is Some, rx_meta, pdu);
    lemma_connection_keeps_config_and_link(OtaView { last_link_activity_tick: now, ..s }, pdu, r, tx_addr);
}

/// The link state changes only in a service round: right after `new` the
/// peripheral advertises, and OTA writes, ATT requests, notifications and
/// connection exchanges leave the link state as they found it.
pub proof fn lemma_link_state_only_by_round(
    s: OtaView,
    config: OtaBootConfig,
    start: u32,
    handle: u16,
    data: Seq<u8>,
    pdu: Seq<u8>,
    out: Seq<u8>,
    report: OtaConnDataReport,
    tx_addr: usize,
)
    ensures
        initial_view(s, config, start) ==> s.link_state == OtaLinkState::Advertising,
        att_write(s, handle, data).0.link_state == s.link_state,
        att_request(s, pdu, out).state.link_state == s.link_state,
        pending_notification(s, out).0.link_state == s.link_state,
        connection_att(s, pdu, report, tx_addr).state.link_state == s.link_state,
{
    lemma_round_keeps_config_and_link(s, handle, data, pdu, out, report, tx_addr, start, None);
}


/// A call on the peripheral, as the protocol sees it: an OTA write, an ATT
/// request, taking the pending notification, a connection exchange, a
/// service round (`run_once`, with the connection request it found), an
/// advertising-due check, or a call that leaves the state as it is
/// (`init`, an advertising step, the radio).
pub enum OtaCall {
    Write { handle: u16, data: Seq<u8> },
    Request { pdu: Seq<u8>, out: Seq<u8> },
    Notify { out: Seq<u8> },
    ConnData { pdu: Seq<u8>, report: OtaConnDataReport, tx_addr: usize },
    Round {
        now: u32,
        rx_meta: Option<BeaconRxMeta>,
        packet: Seq<u8>,
        tx_addr: usize,
        connect_ind: Option<OtaConnectIndSummary>,
        adv_event: Option<BeaconEventResult>,
    },
    Due { now: u32 },
    Keep,
}

/// The state after `c`, as the contract of the corresponding method gives it.
#[verifier::opaque]
pub open spec fn after_call(s: OtaView, c: OtaCall) -> OtaView {
    match c {
        OtaCall::Write { handle, data } => att_write(s, handle, data).0,
        OtaCall::Request { pdu, out } => att_request(s, pdu, out).state,
        OtaCall::Notify { out } => pending_notification(s, out).0,
        OtaCall::ConnData { pdu, report, tx_addr } => connection_att(s, pdu, report, tx_addr).state,
        OtaCall::Round { now, rx_meta, packet, tx_addr, connect_ind, adv_event } => link_round(
            receive_round(s, now, rx_meta, packet, tx_addr).state,
            connect_ind,
            adv_event,
            rx_meta,
            now,
        ).0,
        OtaCall::Due { now } => if elapsed(now, s.beacon_next_event_at) > (s.beacon_config.interval_us as int * 16)
            % 0x1_0000_0000 {
            OtaView { beacon_next_event_at: now, ..s }
        } else {
            s
        },
        OtaCall::Keep => s,
    }
}

/// The state after the calls `cs`, in order.
pub open spec fn after_calls(s: OtaView, cs: Seq<OtaCall>) -> OtaView
    decreases cs.len(),
{
    if cs.len() == 0 {
        s
    } else {
        after_call(after_calls(s, cs.drop_last()), cs.last())
    }
}

pub open spec fn is_round(c: OtaCall) -> bool {
    c is Round
}

/// In every later state of a peripheral the configuration is the one it
/// was made with (so `adv_power` stays the configured power), and until a
/// service round runs, the link state stays what it was; after `new` that
/// is `Advertising`.
pub proof fn lemma_later_states(s: OtaView, config: OtaBootConfig, start: u32, cs: Seq<OtaCall>)
    ensures
        after_calls(s, cs).config == s.config,
        (forall|i: int| 0 <= i < cs.len() ==> !is_round(#[trigger] cs[i])) ==> after_calls(s, cs).link_state
            == s.link_state,
        initial_view(s, config, start) ==> after_calls(s, cs).config.adv_power == config.adv_power,
        initial_view(s, config, start) && (forall|i: int| 0 <= i < cs.len() ==> !is_round(#[trigger] cs[i]))
            ==> after_calls(s, cs).link_state == OtaLinkState::Advertising,
    decreases cs.len(),
{
    if cs.len() > 0 {
        lemma_later_states(s, config, start, cs.drop_last());
        let p = after_calls(s, cs.drop_last());
        assert(forall|i: int| 0 <= i < cs.drop_last().len() ==> cs.drop_last()[i] == cs[i]);
        lemma_call_keeps(p, cs.last());
    }
}


proof fn lemma_call_keeps(p: OtaView, c: OtaCall)
    ensures
        after_call(p, c).config == p.config,
        !is_round(c) ==> after_call(p, c).link_state == p.link_state,
{
    reveal(after_call);
    match c {
        OtaCall::Write { handle, data } => lemma_write_keeps_config_and_link(p, handle, data),
        OtaCall::Request { pdu, out } => lemma_request_keeps_config_and_link(p, pdu, out),
        OtaCall::Notify { out } => lemma_notify_keeps_config_and_link(p, out),
        OtaCall::ConnData { pdu, report, tx_addr } => lemma_connection_keeps_config_and_link(p, pdu, report, tx_addr),
        OtaCall::Round { now, rx_meta, packet, tx_addr, connect_ind, adv_event } => {
            lemma_config_fixed(
                p,
                0,
                Seq::empty(),
                packet,
                Seq::empty(),
                no_conn_data(),
                tx_addr,
                now,
                rx_meta,
                connect_ind,
                adv_event,
            );
            lemma_config_fixed(
                receive_round(p, now, rx_meta, packet, tx_addr).state,
                0,
                Seq::empty(),
                packet,
                Seq::empty(),
                no_conn_data(),
                tx_addr,
                now,
                rx_meta,
                connect_ind,
                adv_event,
            );
        },
        OtaCall::Due { now } => {},
        OtaCall::Keep => {},
    }
}


} // verus!
