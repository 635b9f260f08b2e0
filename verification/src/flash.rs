//! SPI flash: JEDEC identification decoding and the MSPI transfers that
//! read, program and erase the part.
//!
//! Every operation is described as a [`FlashTransfer`]: a command byte, an
//! optional 24-bit address, dummy bytes and the data phase. The executor that
//! clocks a transfer out on the MSPI bus (write-enable before each write
//! transfer, busy polling after it) lives outside this crate.

use vstd::prelude::*;

verus! {

pub const PAGE_SIZE: usize = 256;
pub const SECTOR_SIZE: usize = 4096;

pub const FLASH_WRITE_CMD: u8 = 0x02;
pub const FLASH_READ_CMD: u8 = 0x03;
pub const FLASH_SECT_ERASE_CMD: u8 = 0x20;
pub const FLASH_GET_JEDEC_ID: u8 = 0x9f;
pub const FLASH_READ_UID_CMD_GD_PUYA_ZB_TH: u8 = 0x4b;
pub const FLASH_READ_UID_CMD_XTX: u8 = 0x5a;
pub const FLASH_WRITE_STATUS_CMD_LOWBYTE: u8 = 0x01;
pub const FLASH_READ_STATUS_CMD_LOWBYTE: u8 = 0x05;
pub const FLASH_WRITE_ENABLE_CMD: u8 = 0x06;

#[derive(Clone, Copy, Debug, PartialEq, Eq, Structural)]
pub enum FlashError {
    UnalignedSectorAddress(u32),
    CrossesPageBoundary { addr: u32, len: usize },
    UnsupportedUidCommand(u8),
}

#[derive(Clone, Copy, Debug, PartialEq, Eq, Structural)]
pub enum FlashStatusKind {
    Status8Bit,
    Status16BitSingleCommand,
}

/// One MSPI transaction.
///
/// A `Read` clocks out `cmd`, the address when present and `dummy_count`
/// dummy bytes, then reads `len` bytes. A `Write` is preceded by the
/// write-enable command, clocks out `cmd`, the address when present and
/// `data`, and is followed by polling the status register until the part is
/// idle.
#[derive(Debug)]
pub enum FlashTransfer {
    Read { cmd: u8, addr: Option<u32>, dummy_count: u8, len: usize },
    Write { cmd: u8, addr: Option<u32>, data: Vec<u8> },
}

/// Mathematical form of a [`FlashTransfer`].
pub enum FlashTransferView {
    Read { cmd: u8, addr: Option<u32>, dummy_count: u8, len: nat },
    Write { cmd: u8, addr: Option<u32>, data: Seq<u8> },
}

impl DeepView for FlashTransfer {
    type V = FlashTransferView;

    open spec fn deep_view(&self) -> FlashTransferView {
        match self {
            FlashTransfer::Read { cmd, addr, dummy_count, len } => FlashTransferView::Read {
                cmd: *cmd,
                addr: *addr,
                dummy_count: *dummy_count,
                len: *len as nat,
            },
            FlashTransfer::Write { cmd, addr, data } => FlashTransferView::Write {
                cmd: *cmd,
                addr: *addr,
                data: data@,
            },
        }
    }
}

pub open spec fn opt_addr(addr: u32, addr_en: bool) -> Option<u32> {
    if addr_en { Some(addr) } else { None }
}

/// The transfer that erases the 4 KiB sector holding `addr`.
pub open spec fn erase_view(addr: u32) -> FlashTransferView {
    FlashTransferView::Write { cmd: FLASH_SECT_ERASE_CMD, addr: Some(addr), data: Seq::empty() }
}

/// The transfer that programs `data` starting at `addr` (within one page).
pub open spec fn program_view(addr: u32, data: Seq<u8>) -> FlashTransferView {
    FlashTransferView::Write { cmd: FLASH_WRITE_CMD, addr: Some(addr), data }
}

/// Bytes left in the 256-byte page that holds `addr`.
pub open spec fn page_room(addr: int) -> int {
    PAGE_SIZE as int - addr % (PAGE_SIZE as int)
}

/// The page programs that write `data` from `addr` on: each one runs to the
/// end of its page or of the data, the next starting where it stopped.
pub open spec fn page_programs(addr: u32, data: Seq<u8>) -> Seq<FlashTransferView>
    decreases data.len(),
{
    if data.len() == 0 {
        Seq::empty()
    } else {
        let n = if data.len() < page_room(addr as int) { data.len() as int } else { page_room(addr as int) };
        seq![program_view(addr, data.take(n))] + page_programs(
            ((addr as int + n) % 0x1_0000_0000) as u32,
            data.skip(n),
        )
    }
}

pub open spec fn transfer_data(t: FlashTransferView) -> Seq<u8> {
    match t {
        FlashTransferView::Write { data, .. } => data,
        FlashTransferView::Read { .. } => Seq::empty(),
    }
}

/// The data phases of `ts`, one after the other.
pub open spec fn programmed_bytes(ts: Seq<FlashTransferView>) -> Seq<u8>
    decreases ts.len(),
{
    if ts.len() == 0 {
        Seq::empty()
    } else {
        transfer_data(ts[0]) + programmed_bytes(ts.skip(1))
    }
}

/// A write transfer that stays inside one page.
pub open spec fn within_one_page(t: FlashTransferView) -> bool {
    match t {
        FlashTransferView::Write { cmd, addr: Some(a), data } => cmd == FLASH_WRITE_CMD && 0 < data.len()
            && data.len() <= page_room(a as int),
        _ => false,
    }
}

/// Splitting a write into page programs loses and adds no byte, and no
/// program crosses a page boundary.
pub proof fn lemma_page_programs(addr: u32, data: Seq<u8>)
    ensures
        programmed_bytes(page_programs(addr, data)) == data,
        forall|i: int| 0 <= i < page_programs(addr, data).len() ==> #[trigger] within_one_page(page_programs(addr, data)[i]),
    decreases data.len(),
{
    if data.len() > 0 {
        let n = if data.len() < page_room(addr as int) { data.len() as int } else { page_room(addr as int) };
        let next = ((addr as int + n) % 0x1_0000_0000) as u32;
        lemma_page_programs(next, data.skip(n));
        let s = page_programs(addr, data);
        assert(s.skip(1) =~= page_programs(next, data.skip(n)));
        assert(data.take(n) + data.skip(n) =~= data);
        assert forall|i: int| 0 <= i < s.len() implies #[trigger] within_one_page(s[i]) by {
            if i > 0 {
                assert(s[i] == page_programs(next, data.skip(n))[i - 1]);
            }
        }
    }
}


/// Builds the transfer for a raw command with a read data phase of `len` bytes.
pub fn read_raw(cmd: u8, addr: u32, addr_en: bool, dummy_count: u8, len: usize) -> (t: FlashTransfer)
    ensures
        t.deep_view() == (FlashTransferView::Read { cmd, addr: opt_addr(addr, addr_en), dummy_count, len: len as nat }),
{
    FlashTransfer::Read { cmd, addr: if addr_en { Some(addr) } else { None }, dummy_count, len }
}

/// Builds the transfer for a raw command with a write data phase.
pub fn write_raw(cmd: u8, addr: u32, addr_en: bool, data: &[u8]) -> (t: FlashTransfer)
    ensures
        t.deep_view() == (FlashTransferView::Write { cmd, addr: opt_addr(addr, addr_en), data: data@ }),
{
    FlashTransfer::Write {
        cmd,
        addr: if addr_en { Some(addr) } else { None },
        data: vstd::slice::slice_to_vec(data),
    }
}

/// Reads `len` bytes starting at `addr`.
pub fn read_page(addr: u32, len: usize) -> (t: FlashTransfer)
    ensures
        t.deep_view() == (FlashTransferView::Read { cmd: FLASH_READ_CMD, addr: Some(addr), dummy_count: 0, len: len as nat }),
{
    read_raw(FLASH_READ_CMD, addr, true, 0, len)
}

/// Erases the sector that holds `addr`.
pub fn erase_sector(addr: u32) -> (t: FlashTransfer)
    ensures
        t.deep_view() == erase_view(addr),
{
    let t = FlashTransfer::Write { cmd: FLASH_SECT_ERASE_CMD, addr: Some(addr), data: Vec::new() };
    assert(t.deep_view() == erase_view(addr));
    t
}

/// Programs `data` from `addr` on, split at page boundaries.
pub fn write_page(addr: u32, data: &[u8]) -> (ts: Vec<FlashTransfer>)
    ensures
        ts.deep_view() == page_programs(addr, data@),
{
    let mut ts: Vec<FlashTransfer> = Vec::new();
    let len = data.len();
    let mut pos: usize = 0;
    let mut at: u32 = addr;
    assert(data@.skip(0) =~= data@);
    while pos < len
        invariant
            len == data@.len(),
            pos <= len,
            ts.deep_view() + page_programs(at, data@.skip(pos as int)) == page_programs(addr, data@),
        decreases len - pos,
    {
        let room: usize = PAGE_SIZE - (at as usize % PAGE_SIZE);
        let rest = len - pos;
        let n: usize = if rest < room { rest } else { room };
        let chunk = vstd::slice::slice_to_vec(vstd::slice::slice_subrange(data, pos, pos + n));
        let ghost rest_seq = data@.skip(pos as int);
        let ghost old_ts = ts.deep_view();
        assert(rest_seq.take(n as int) =~= chunk@);
        let t = FlashTransfer::Write { cmd: FLASH_WRITE_CMD, addr: Some(at), data: chunk };
        ts.push(t);
        assert(ts.deep_view() =~= old_ts.push(program_view(at, rest_seq.take(n as int))));
        let next = at.wrapping_add(n as u32);
        assert(next == ((at as int + n) % 0x1_0000_0000) as u32);
        assert(rest_seq.skip(n as int) =~= data@.skip(pos + n));
        assert(page_programs(at, rest_seq) == seq![program_view(at, rest_seq.take(n as int))]
            + page_programs(next, rest_seq.skip(n as int)));
        assert(ts.deep_view() + page_programs(next, data@.skip(pos + n)) =~= old_ts + page_programs(at, rest_seq));
        at = next;
        pos = pos + n;
    }
    assert(data@.skip(len as int) =~= Seq::<u8>::empty());
    assert(ts.deep_view() + page_programs(at, Seq::<u8>::empty()) =~= ts.deep_view());
    ts
}

/// Programs `data` at `addr` when it fits in the page that holds `addr`.
pub fn write_page_aligned(addr: u32, data: &[u8]) -> (r: Result<Vec<FlashTransfer>, FlashError>)
    ensures
        (addr as int % 256 + data@.len() > 256) <==> r is Err,
        r matches Err(e) ==> e == (FlashError::CrossesPageBoundary { addr, len: data@.len() as usize }),
        r matches Ok(ts) ==> ts.deep_view() == page_programs(addr, data@),
{
    let offset = addr as usize % PAGE_SIZE;
    if data.len() > PAGE_SIZE - offset {
        return Err(FlashError::CrossesPageBoundary { addr, len: data.len() });
    }
    Ok(write_page(addr, data))
}


/// Reads the status register selected by `cmd`.
pub fn read_status(cmd: u8) -> (t: FlashTransfer)
    ensures
        t.deep_view() == (FlashTransferView::Read { cmd, addr: None, dummy_count: 0, len: 1 }),
{
    read_raw(cmd, 0, false, 0, 1)
}

/// The bytes written to the status register: the low byte alone for an
/// 8-bit register, low then high byte for a 16-bit one.
pub open spec fn status_bytes(kind: FlashStatusKind, data: u16) -> Seq<u8> {
    match kind {
        FlashStatusKind::Status8Bit => seq![(data % 256) as u8],
        FlashStatusKind::Status16BitSingleCommand => seq![(data % 256) as u8, (data / 256) as u8],
    }
}

/// Writes the status register.
pub fn write_status(kind: FlashStatusKind, data: u16) -> (t: FlashTransfer)
    ensures
        t.deep_view() == (FlashTransferView::Write { cmd: FLASH_WRITE_STATUS_CMD_LOWBYTE, addr: None, data: status_bytes(kind, data) }),
{
    let mut buf: Vec<u8> = Vec::new();
    buf.push((data % 256) as u8);
    match kind {
        FlashStatusKind::Status8Bit => {},
        FlashStatusKind::Status16BitSingleCommand => {
            buf.push((data / 256) as u8);
        },
    }
    assert(buf@ =~= status_bytes(kind, data));
    FlashTransfer::Write { cmd: FLASH_WRITE_STATUS_CMD_LOWBYTE, addr: None, data: buf }
}

/// Reads the three JEDEC identification bytes.
pub fn read_raw_mid() -> (t: FlashTransfer)
    ensures
        t.deep_view() == (FlashTransferView::Read { cmd: FLASH_GET_JEDEC_ID, addr: None, dummy_count: 0, len: 3 }),
{
    read_raw(FLASH_GET_JEDEC_ID, 0, false, 0, 3)
}

/// The identification word made of the JEDEC bytes (manufacturer in the
/// low byte).
pub fn mid_from_jedec_bytes(b: [u8; 3]) -> (mid: u32)
    ensures
        mid == b[0] + 256 * b[1] + 65536 * b[2],
{
    (b[0] as u32) + (b[1] as u32) * 256 + (b[2] as u32) * 65536
}

/// Whether an identification of `raw_mid` needs the SFDP probe that tells
/// two parts with the same JEDEC bytes apart.
pub fn read_mid_needs_sfdp_probe(raw_mid: u32) -> (b: bool)
    ensures
        b == (raw_mid == 0x1460c8),
{
    raw_mid == 0x1460c8
}

/// The SFDP probe: four bytes read with the XTX unique-ID command.
pub fn sfdp_probe() -> (t: FlashTransfer)
    ensures
        t.deep_view() == (FlashTransferView::Read { cmd: FLASH_READ_UID_CMD_XTX, addr: Some(0), dummy_count: 1, len: 4 }),
{
    read_raw(FLASH_READ_UID_CMD_XTX, 0, true, 1, 4)
}

/// The identification word after the probe: a `0x1460c8` part that answers
/// the probe with "SFDP" is reported as `0x011460c8`.
pub fn read_mid(raw_mid: u32, sfdp: [u8; 4]) -> (mid: u32)
    ensures
        mid == (if raw_mid == 0x1460c8 && sfdp@ == seq![0x53u8, 0x46u8, 0x44u8, 0x50u8] { 0x0114_60c8u32 } else { raw_mid }),
{
    if raw_mid == 0x1460c8 && sfdp[0] == 0x53 && sfdp[1] == 0x46 && sfdp[2] == 0x44 && sfdp[3] == 0x50 {
        assert(sfdp@ =~= seq![0x53u8, 0x46u8, 0x44u8, 0x50u8]);
        0x0114_60c8
    } else {
        raw_mid
    }
}

/// The decoded identification of a part whose identification word is `mid`.
pub fn read_jedec_id(mid: u32) -> (m: FlashMid)
    ensures
        m.id() == mid % 0x0100_0000,
{
    FlashMid::from_raw(mid)
}

/// Reads the 16-byte unique ID; only the GD/PUYA/ZB/TH command is supported.
pub fn read_uid(cmd: u8) -> (r: Result<FlashTransfer, FlashError>)
    ensures
        r matches Ok(t) ==> cmd == FLASH_READ_UID_CMD_GD_PUYA_ZB_TH && t.deep_view() == (FlashTransferView::Read { cmd, addr: Some(0), dummy_count: 1, len: 16 }),
        r matches Err(e) ==> cmd != FLASH_READ_UID_CMD_GD_PUYA_ZB_TH && e == FlashError::UnsupportedUidCommand(cmd),
{
    if cmd == FLASH_READ_UID_CMD_GD_PUYA_ZB_TH {
        Ok(read_raw(cmd, 0, true, 1, 16))
    } else {
        Err(FlashError::UnsupportedUidCommand(cmd))
    }
}

/// Reads the unique ID with the default command.
pub fn read_uid_default() -> (r: Result<FlashTransfer, FlashError>)
    ensures
        r matches Ok(t) && t.deep_view() == (FlashTransferView::Read { cmd: FLASH_READ_UID_CMD_GD_PUYA_ZB_TH, addr: Some(0), dummy_count: 1, len: 16 }),
{
    read_uid(FLASH_READ_UID_CMD_GD_PUYA_ZB_TH)
}

/// The one-byte read of the VDD_F calibration value of a part identified by
/// `mid`, when its capacity has a calibration location.
pub fn read_vdd_f_calibration_value(mid: FlashMid) -> (r: Option<FlashTransfer>)
    ensures
        r is None <==> capacity_calibration_addr(capacity_of_code((mid.id() / 65536) % 256)) is None,
        r matches Some(t) ==> t.deep_view() == (FlashTransferView::Read {
            cmd: FLASH_READ_CMD,
            addr: capacity_calibration_addr(capacity_of_code((mid.id() / 65536) % 256)),
            dummy_count: 0,
            len: 1,
        }),
{
    match mid.capacity().vdd_f_calibration_addr() {
        Some(addr) => Some(read_page(addr, 1)),
        None => None,
    }
}

/// The calibration byte reported when the part has no calibration location.
pub const VDD_F_CALIBRATION_NONE: u8 = 0xff;

/// Erases the sector at `addr`, which must be sector aligned.
pub fn erase_sector_checked(addr: u32) -> (r: Result<FlashTransfer, FlashError>)
    ensures
        r is Ok <==> addr % 4096 == 0,
        r matches Ok(t) ==> t.deep_view() == erase_view(addr),
        r matches Err(e) ==> e == FlashError::UnalignedSectorAddress(addr),
{
    if addr as usize % SECTOR_SIZE != 0 {
        return Err(FlashError::UnalignedSectorAddress(addr));
    }
    Ok(erase_sector(addr))
}

/// 1 for the Zbit parts `0x13325e` and `0x14325e`, else 0.
pub fn flash_is_zb(mid: u32) -> (r: u8)
    ensures
        r == (if mid == 0x13325e || mid == 0x14325e { 1u8 } else { 0u8 }),
{
    if mid == 0x13325e || mid == 0x14325e {
        1
    } else {
        0
    }
}

/// Handle on the on-chip SPI flash.
#[derive(Clone, Copy, Debug, Default, PartialEq, Eq, Structural)]
pub struct Flash;

impl Flash {
    pub fn new() -> (f: Self)
        ensures
            f == Flash,
    {
        Flash
    }

    pub fn read_page(&self, addr: u32, len: usize) -> (t: FlashTransfer)
        ensures
            t.deep_view() == (FlashTransferView::Read { cmd: FLASH_READ_CMD, addr: Some(addr), dummy_count: 0, len: len as nat }),
    {
        read_page(addr, len)
    }

    pub fn write_page(&self, addr: u32, data: &[u8]) -> (ts: Vec<FlashTransfer>)
        ensures
            ts.deep_view() == page_programs(addr, data@),
    {
        write_page(addr, data)
    }

    pub fn write_page_aligned(&self, addr: u32, data: &[u8]) -> (r: Result<Vec<FlashTransfer>, FlashError>)
        ensures
            (addr as int % 256 + data@.len() > 256) <==> r is Err,
            r matches Err(e) ==> e == (FlashError::CrossesPageBoundary { addr, len: data@.len() as usize }),
            r matches Ok(ts) ==> ts.deep_view() == page_programs(addr, data@),
    {
        write_page_aligned(addr, data)
    }

    pub fn erase_sector(&self, addr: u32) -> (t: FlashTransfer)
        ensures
            t.deep_view() == erase_view(addr),
    {
        erase_sector(addr)
    }

    pub fn erase_sector_checked(&self, addr: u32) -> (r: Result<FlashTransfer, FlashError>)
        ensures
            r is Ok <==> addr % 4096 == 0,
            r matches Ok(t) ==> t.deep_view() == erase_view(addr),
            r matches Err(e) ==> e == FlashError::UnalignedSectorAddress(addr),
    {
        erase_sector_checked(addr)
    }

    pub fn read_status(&self, cmd: u8) -> (t: FlashTransfer)
        ensures
            t.deep_view() == (FlashTransferView::Read { cmd, addr: None, dummy_count: 0, len: 1 }),
    {
        read_status(cmd)
    }

    pub fn write_status(&self, kind: FlashStatusKind, data: u16) -> (t: FlashTransfer)
        ensures
            t.deep_view() == (FlashTransferView::Write { cmd: FLASH_WRITE_STATUS_CMD_LOWBYTE, addr: None, data: status_bytes(kind, data) }),
    {
        write_status(kind, data)
    }

    pub fn read_raw_mid(&self) -> (t: FlashTransfer)
        ensures
            t.deep_view() == (FlashTransferView::Read { cmd: FLASH_GET_JEDEC_ID, addr: None, dummy_count: 0, len: 3 }),
    {
        read_raw_mid()
    }

    pub fn read_mid(&self, raw_mid: u32, sfdp: [u8; 4]) -> (mid: u32)
        ensures
            mid == (if raw_mid == 0x1460c8 && sfdp@ == seq![0x53u8, 0x46u8, 0x44u8, 0x50u8] { 0x0114_60c8u32 } else { raw_mid }),
    {
        read_mid(raw_mid, sfdp)
    }

    pub fn read_jedec_id(&self, mid: u32) -> (m: FlashMid)
        ensures
            m.id() == mid % 0x0100_0000,
    {
        read_jedec_id(mid)
    }

    pub fn read_uid(&self, cmd: u8) -> (r: Result<FlashTransfer, FlashError>)
        ensures
            r matches Ok(t) ==> cmd == FLASH_READ_UID_CMD_GD_PUYA_ZB_TH && t.deep_view() == (FlashTransferView::Read { cmd, addr: Some(0), dummy_count: 1, len: 16 }),
            r matches Err(e) ==> cmd != FLASH_READ_UID_CMD_GD_PUYA_ZB_TH && e == FlashError::UnsupportedUidCommand(cmd),
    {
        read_uid(cmd)
    }

    pub fn read_uid_default(&self) -> (r: Result<FlashTransfer, FlashError>)
        ensures
            r matches Ok(t) && t.deep_view() == (FlashTransferView::Read { cmd: FLASH_READ_UID_CMD_GD_PUYA_ZB_TH, addr: Some(0), dummy_count: 1, len: 16 }),
    {
        read_uid_default()
    }

    pub fn read_vdd_f_calibration_value(&self, mid: FlashMid) -> (r: Option<FlashTransfer>)
        ensures
            r is None <==> capacity_calibration_addr(capacity_of_code((mid.id() / 65536) % 256)) is None,
            r matches Some(t) ==> t.deep_view() == (FlashTransferView::Read {
                cmd: FLASH_READ_CMD,
                addr: capacity_calibration_addr(capacity_of_code((mid.id() / 65536) % 256)),
                dummy_count: 0,
                len: 1,
            }),
    {
        read_vdd_f_calibration_value(mid)
    }

    pub fn is_zb(&self, mid: u32) -> (b: bool)
        ensures
            b == (mid == 0x13325e || mid == 0x14325e),
    {
        flash_is_zb(mid) != 0
    }
}

#[derive(Clone, Copy, Debug, PartialEq, Eq, Structural)]
pub enum FlashVendor {
    Zbit,
    GigaDevice,
    Puya,
    TongHeng,
    Th,
    Unknown(u32),
}

#[derive(Clone, Copy, Debug, PartialEq, Eq, Structural)]
pub enum FlashCapacity {
    K64,
    K128,
    K256,
    K512,
    M1,
    M2,
    M4,
    M8,
    Unknown(u8),
}

pub open spec fn capacity_bytes(c: FlashCapacity) -> Option<usize> {
    match c {
        FlashCapacity::K64 => Some((64 * 1024) as usize),
        FlashCapacity::K128 => Some((128 * 1024) as usize),
        FlashCapacity::K256 => Some((256 * 1024) as usize),
        FlashCapacity::K512 => Some((512 * 1024) as usize),
        FlashCapacity::M1 => Some((1024 * 1024) as usize),
        FlashCapacity::M2 => Some((2 * 1024 * 1024) as usize),
        FlashCapacity::M4 => Some((4 * 1024 * 1024) as usize),
        FlashCapacity::M8 => Some((8 * 1024 * 1024) as usize),
        FlashCapacity::Unknown(_) => None,
    }
}

pub open spec fn capacity_calibration_addr(c: FlashCapacity) -> Option<u32> {
    match c {
        FlashCapacity::K64 => Some(0x00e1c0),
        FlashCapacity::K128 => Some(0x01e1c0),
        FlashCapacity::K512 => Some(0x0771c0),
        FlashCapacity::M1 => Some(0x0fe1c0),
        FlashCapacity::M2 => Some(0x1fe1c0),
        _ => None,
    }
}

/// The capacity that JEDEC capacity code `code` (0x10 = 64 KiB, doubling
/// per step up to 0x17 = 8 MiB) stands for.
pub open spec fn capacity_of_code(code: u32) -> FlashCapacity {
    if code == 0x10 {
        FlashCapacity::K64
    } else if code == 0x11 {
        FlashCapacity::K128
    } else if code == 0x12 {
        FlashCapacity::K256
    } else if code == 0x13 {
        FlashCapacity::K512
    } else if code == 0x14 {
        FlashCapacity::M1
    } else if code == 0x15 {
        FlashCapacity::M2
    } else if code == 0x16 {
        FlashCapacity::M4
    } else if code == 0x17 {
        FlashCapacity::M8
    } else {
        FlashCapacity::Unknown(code as u8)
    }
}

/// The vendor that the low 16 bits `id` (manufacturer and memory type) name.
pub open spec fn vendor_of_id(id: u32) -> FlashVendor {
    if id == 0x325e {
        FlashVendor::Zbit
    } else if id == 0x60c8 || id == 0x4051 {
        FlashVendor::GigaDevice
    } else if id == 0x6085 {
        FlashVendor::Puya
    } else if id == 0x60eb {
        FlashVendor::TongHeng
    } else if id == 0x60cd {
        FlashVendor::Th
    } else {
        FlashVendor::Unknown(id)
    }
}

impl FlashCapacity {
    pub fn bytes(self) -> (r: Option<usize>)
        ensures
            r == capacity_bytes(self),
    {
        match self {
            FlashCapacity::K64 => Some(64 * 1024),
            FlashCapacity::K128 => Some(128 * 1024),
            FlashCapacity::K256 => Some(256 * 1024),
            FlashCapacity::K512 => Some(512 * 1024),
            FlashCapacity::M1 => Some(1024 * 1024),
            FlashCapacity::M2 => Some(2 * 1024 * 1024),
            FlashCapacity::M4 => Some(4 * 1024 * 1024),
            FlashCapacity::M8 => Some(8 * 1024 * 1024),
            FlashCapacity::Unknown(_) => None,
        }
    }

    pub fn vdd_f_calibration_addr(self) -> (r: Option<u32>)
        ensures
            r == capacity_calibration_addr(self),
    {
        match self {
            FlashCapacity::K64 => Some(0x00e1c0),
            FlashCapacity::K128 => Some(0x01e1c0),
            FlashCapacity::K512 => Some(0x0771c0),
            FlashCapacity::M1 => Some(0x0fe1c0),
            FlashCapacity::M2 => Some(0x1fe1c0),
            FlashCapacity::K256 | FlashCapacity::M4 | FlashCapacity::M8 | FlashCapacity::Unknown(_) => None,
        }
    }
}

/// A 24-bit JEDEC identification: manufacturer, memory type, capacity code
/// from the low byte up.
#[derive(Clone, Copy, Debug, PartialEq, Eq, Structural)]
pub struct FlashMid(u32);

impl FlashMid {
    /// The 24-bit identification.
    pub closed spec fn id(self) -> u32 {
        self.0
    }

    pub fn from_raw(raw: u32) -> (m: Self)
        ensures
            m.id() == raw % 0x0100_0000,
    {
        FlashMid(raw % 0x0100_0000)
    }

    pub fn raw(self) -> (r: u32)
        ensures
            r == self.id(),
    {
        self.0
    }

    pub fn manufacturer_id(self) -> (r: u8)
        ensures
            r == self.id() % 256,
    {
        (self.0 % 256) as u8
    }

    pub fn memory_type(self) -> (r: u8)
        ensures
            r == (self.id() / 256) % 256,
    {
        ((self.0 / 256) % 256) as u8
    }

    pub fn capacity_code(self) -> (r: u8)
        ensures
            r == (self.id() / 65536) % 256,
    {
        ((self.0 / 65536) % 256) as u8
    }

    pub fn capacity(self) -> (c: FlashCapacity)
        ensures
            c == capacity_of_code((self.id() / 65536) % 256),
    {
        let code = self.capacity_code();
        match code {
            0x10 => FlashCapacity::K64,
            0x11 => FlashCapacity::K128,
            0x12 => FlashCapacity::K256,
            0x13 => FlashCapacity::K512,
            0x14 => FlashCapacity::M1,
            0x15 => FlashCapacity::M2,
            0x16 => FlashCapacity::M4,
            0x17 => FlashCapacity::M8,
            other => FlashCapacity::Unknown(other),
        }
    }

    pub fn vendor(self) -> (v: FlashVendor)
        ensures
            v == vendor_of_id(self.id() % 65536),
    {
        match self.raw() % 65536 {
            0x325e => FlashVendor::Zbit,
            0x60c8 => FlashVendor::GigaDevice,
            0x4051 => FlashVendor::GigaDevice,
            0x6085 => FlashVendor::Puya,
            0x60eb => FlashVendor::TongHeng,
            0x60cd => FlashVendor::Th,
            raw => FlashVendor::Unknown(raw),
        }
    }

    pub fn is_zbit(self) -> (b: bool)
        ensures
            b == (self.id() % 65536 == 0x325e),
    {
        match self.vendor() {
            FlashVendor::Zbit => true,
            _ => false,
        }
    }
}

} // verus!
