//! Laws of the OTA update protocol, stated over the protocol's state.

use vstd::prelude::*;
use crate::ble::ota::{att_write, OtaCommandError, OtaView, CMD_OTA_SCHEDULE_FW_SIZE};
use crate::bytes::{le16_at, le16_bytes, le32_bytes};

verus! {

/// Progress notifications while a firmware image streams in: an accepted
/// chunk written to the OTA data value asks for a firmware-size
/// notification exactly when notifications are on and the chunk's index
/// plus one is a multiple of 16; the notification is the opcode 0xFF09
/// followed by the byte count written so far (the larger of the previous
/// count and the end of this chunk), little-endian. No result notification
/// accompanies a chunk.
pub proof fn lemma_chunk_progress_notification(s: OtaView, data: Seq<u8>)
    requires
        s.status.started,
        data.len() >= 3,
        data[1] != 0xFF,
        data[0] + 256 * data[1] == s.status.expected_index,
        (data[0] + 256 * data[1]) * s.status.pdu_len + data.len() - 2 <= s.config.app_slot_size,
    ensures
        ({
            let idx = data[0] + 256 * data[1];
            let end = idx * s.status.pdu_len + data.len() - 2;
            let count: int = if end > s.status.bytes_written { end } else { s.status.bytes_written as int };
            let (s2, r, fl) = att_write(s, 0x000A, data);
            &&& r is Ok
            &&& r->Ok_0.result is None
            &&& (r->Ok_0.schedule is Some <==> (s.status.ccc_enabled && (idx + 1) % 16 == 0))
            &&& s2.status.bytes_written == count
            &&& (r->Ok_0.schedule is Some ==> r->Ok_0.schedule == Some(
                seq![0x09u8, 0xFFu8, (count % 256) as u8, ((count / 256) % 256) as u8, ((count / 65536) % 256) as u8, (count / 16777216) as u8],
            ))
        }),
{
    let idx = le16_at(data, 0);
    assert(le16_bytes(CMD_OTA_SCHEDULE_FW_SIZE) =~= seq![0x09u8, 0xFFu8]);
    let end = idx * s.status.pdu_len + data.len() - 2;
    let count: int = if end > s.status.bytes_written { end } else { s.status.bytes_written as int };
    assert(le16_bytes(CMD_OTA_SCHEDULE_FW_SIZE) + le32_bytes(count as u32) =~= seq![0x09u8, 0xFFu8, (count % 256) as u8, ((count / 256) % 256) as u8, ((count / 65536) % 256) as u8, (count / 16777216) as u8]);
}



/// A data chunk that cannot be taken is refused with the reason, writes
/// nothing to flash and leaves the session as it was, apart from the
/// reported result code: a chunk shorter than three bytes is too short
/// (code 2), one outside a session is out of flow (code 6), one whose
/// index is not the next one expected is out of order (code 2), and one
/// reaching past the application slot is too large (code 11).
pub proof fn lemma_chunk_refusals(s: OtaView, data: Seq<u8>)
    requires
        data.len() >= 2 ==> data[1] != 0xFF,
    ensures
        ({
            let (s2, r, fl) = att_write(s, 0x000A, data);
            let idx = data[0] + 256 * data[1];
            let refused = data.len() < 3 || !s.status.started || idx != s.status.expected_index
                || idx * s.status.pdu_len + data.len() - 2 > s.config.app_slot_size;
            &&& refused ==> fl.len() == 0 && s2.status.started == s.status.started
                && s2.status.expected_index == s.status.expected_index
                && s2.status.bytes_written == s.status.bytes_written && s2.erased_until == s.erased_until
                && s2.config == s.config
            &&& data.len() < 3 ==> r == Err::<crate::ble::ota::NotifyView, OtaCommandError>(
                OtaCommandError::InvalidLength) && s2.status.ota_result == 2
            &&& data.len() >= 3 && !s.status.started ==> r == Err::<crate::ble::ota::NotifyView, OtaCommandError>(
                OtaCommandError::InvalidFlow) && s2.status.ota_result == 6
            &&& data.len() >= 3 && s.status.started && idx != s.status.expected_index ==> r == Err::<
                crate::ble::ota::NotifyView,
                OtaCommandError,
            >(OtaCommandError::InvalidIndex) && s2.status.ota_result == 2
            &&& data.len() >= 3 && s.status.started && idx == s.status.expected_index && idx * s.status.pdu_len
                + data.len() - 2 > s.config.app_slot_size ==> r == Err::<crate::ble::ota::NotifyView, OtaCommandError>(
                OtaCommandError::InvalidSize) && s2.status.ota_result == 11
            &&& !refused ==> r is Ok
        }),
{
}

} // verus!
