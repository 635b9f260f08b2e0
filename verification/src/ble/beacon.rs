//! Non-connectable BLE advertiser: packet framing, radio bring-up and the
//! per-event decisions of a three-channel advertising burst.

use vstd::prelude::*;
use crate::bytes::splice;
use crate::mmio::RegOp;
use crate::radio::{
    base_init_ops, ble_advertising_config_ops, ble_config_ops, ble_phy_init_ops, buffer_ops, power_op,
    scheduled_command_ops, tx_buffer_error, tx_rx_off_ops, BleConfig, IrqFlags, Radio, RadioError, RadioMode,
    RadioPower, RF_CMD_SRX2TX,
};
use crate::regs::{REG_DMA3_ADDR, REG_DMA3_ADDR_HI, REG_RF_IRQ_MASK, REG_RF_IRQ_STATUS};
use crate::timer::{clock_time_exceed_us, elapsed};

verus! {

pub const PDU_TYPE_ADV_NONCONN_IND: u8 = 0x02;
pub const BLE_TX_ADDR_RANDOM_BIT: u8 = 0x40;
/// First PDU header byte: ADV_NONCONN_IND from a random address.
pub const BLE_ADV_HEADER0: u8 = 0x42;
pub const TX_START_DELAY_US: u32 = 10;
/// TX, TX_DS and CMD_DONE: the packet left the radio.
pub const SUCCESS_IRQ_BITS: u16 = 0x0122;
/// STX_TIMEOUT.
pub const TIMEOUT_IRQ_BITS: u16 = 0x1000;
/// Length of the DMA buffer that holds the advertising packet.
pub const TX_PACKET_LEN: usize = 64;

#[derive(Clone, Copy, Debug, PartialEq, Eq, Structural)]
pub enum BeaconError {
    AdvDataTooLong,
    TxBufferTooSmall,
    Radio(RadioError),
}

impl From<RadioError> for BeaconError {
    fn from(value: RadioError) -> (r: Self) {
        BeaconError::Radio(value)
    }
}

impl vstd::std_specs::convert::FromSpecImpl<RadioError> for BeaconError {
    open spec fn obeys_from_spec() -> bool {
        true
    }

    open spec fn from_spec(v: RadioError) -> BeaconError {
        BeaconError::Radio(v)
    }
}

#[derive(Clone, Copy, Debug, PartialEq, Eq, Structural)]
pub enum BeaconFailureReason {
    Config,
    Timeout,
    UnexpectedIrq,
    StartTx,
}

#[derive(Clone, Copy, Debug, PartialEq, Eq, Structural)]
pub struct BeaconEventResult {
    pub ok: bool,
    pub failed_channel: u8,
    pub tx_attempts: u8,
    pub tx_ok: u8,
    pub tx_timeout: u8,
    pub tx_other_irq: u8,
    pub last_irq: u16,
    pub failure_reason: Option<BeaconFailureReason>,
}

impl BeaconEventResult {
    /// A burst in which every channel went out.
    pub fn ok(tx_attempts: u8, tx_ok: u8, last_irq: u16) -> (r: Self)
        ensures
            r == (BeaconEventResult {
                ok: true,
                failed_channel: 0,
                tx_attempts,
                tx_ok,
                tx_timeout: 0,
                tx_other_irq: 0,
                last_irq,
                failure_reason: None,
            }),
    {
        BeaconEventResult {
            ok: true,
            failed_channel: 0,
            tx_attempts,
            tx_ok,
            tx_timeout: 0,
            tx_other_irq: 0,
            last_irq,
            failure_reason: None,
        }
    }

    /// A burst that stopped on `failed_channel` for `reason`.
    pub fn fail(
        failed_channel: u8,
        tx_attempts: u8,
        tx_ok: u8,
        tx_timeout: u8,
        tx_other_irq: u8,
        last_irq: u16,
        reason: BeaconFailureReason,
    ) -> (r: Self)
        ensures
            r == (BeaconEventResult {
                ok: false,
                failed_channel,
                tx_attempts,
                tx_ok,
                tx_timeout,
                tx_other_irq,
                last_irq,
                failure_reason: Some(reason),
            }),
    {
        BeaconEventResult {
            ok: false,
            failed_channel,
            tx_attempts,
            tx_ok,
            tx_timeout,
            tx_other_irq,
            last_irq,
            failure_reason: Some(reason),
        }
    }
}

#[derive(Clone, Copy, Debug, PartialEq, Eq)]
pub struct BeaconConfig {
    pub interval_us: u32,
    pub tx_timeout_us: u32,
    pub channel_settle_us: u32,
    pub channels: [u8; 3],
    pub power: RadioPower,
    pub connectable: bool,
}

impl Default for BeaconConfig {
    /// Every 100 ms on channels 37, 38 and 39 at +10.46 dBm.
    fn default() -> (c: Self)
        ensures
            c.interval_us == 100_000,
            c.tx_timeout_us == 4_000,
            c.channel_settle_us == 180,
            c.channels@ == seq![37u8, 38u8, 39u8],
            c.power == RadioPower(RadioPower::PLUS_10P46_DBM),
            !c.connectable,
    {
        let c = BeaconConfig {
            interval_us: 100_000,
            tx_timeout_us: 4_000,
            channel_settle_us: 180,
            channels: [37, 38, 39],
            power: RadioPower(RadioPower::PLUS_10P46_DBM),
            connectable: false,
        };
        assert(c.channels@ =~= seq![37u8, 38u8, 39u8]);
        c
    }
}

/// What the receiver reported about the last packet heard after an
/// advertising burst.
#[derive(Clone, Copy, Debug, PartialEq, Eq, Structural)]
pub struct BeaconRxMeta {
    pub pdu_type: u8,
    pub pdu_len: u8,
    pub target_match: bool,
}

/// The 64-byte DMA image of an ADV_NONCONN_IND carrying `addr` and `data`:
/// DMA length (payload + 2) little-endian, two reserved bytes, the PDU
/// header, the payload length, the advertiser address, the data, zeros.
pub open spec fn adv_packet(addr: Seq<u8>, data: Seq<u8>) -> Seq<u8> {
    let payload_len = 6 + data.len();
    let dma_len = payload_len + 2;
    seq![(dma_len % 256) as u8, (dma_len / 256) as u8, 0u8, 0u8, BLE_ADV_HEADER0, payload_len as u8] + addr + data
        + Seq::new((TX_PACKET_LEN - 12 - data.len()) as nat, |i: int| 0u8)
}

pub struct BeaconAdvertiser {
    radio: Radio,
    config: BeaconConfig,
    tx_packet: Vec<u8>,
    next_event_at: u32,
}

impl BeaconAdvertiser {
    pub closed spec fn spec_config(&self) -> BeaconConfig {
        self.config
    }

    pub closed spec fn spec_tx_packet(&self) -> Seq<u8> {
        self.tx_packet@
    }

    pub closed spec fn spec_next_event_at(&self) -> u32 {
        self.next_event_at
    }

    /// Frames `adv_data` (at most 31 bytes) behind `adv_addr_le`. The last
    /// event counts as held `interval_us` system ticks before `now` (the
    /// current system tick), so the first one is due once more than
    /// `15 * interval_us` further ticks have passed: the due test measures
    /// the interval as `16 * interval_us` ticks.
    pub fn new(radio: Radio, config: BeaconConfig, adv_addr_le: [u8; 6], adv_data: &[u8], now: u32) -> (r: Result<
        Self,
        BeaconError,
    >)
        ensures
            adv_data@.len() > 31 <==> r is Err,
            r matches Err(e) ==> e == BeaconError::AdvDataTooLong,
            r matches Ok(b) ==> b.spec_config() == config && b.spec_tx_packet() == adv_packet(adv_addr_le@, adv_data@)
                && b.spec_next_event_at() == (now as int - config.interval_us as int) % 0x1_0000_0000,
    {
        if adv_data.len() > 31 {
            return Err(BeaconError::AdvDataTooLong);
        }
        let pdu_payload_len = 6 + adv_data.len();
        let dma_len = pdu_payload_len + 2;
        if dma_len + 4 > TX_PACKET_LEN {
            return Err(BeaconError::TxBufferTooSmall);
        }
        let mut tx_packet: Vec<u8> = Vec::new();
        tx_packet.push((dma_len % 256) as u8);
        tx_packet.push((dma_len / 256) as u8);
        tx_packet.push(0);
        tx_packet.push(0);
        tx_packet.push(BLE_ADV_HEADER0);
        tx_packet.push(pdu_payload_len as u8);
        let mut i: usize = 0;
        while i < 6
            invariant
                i <= 6,
                tx_packet@ =~= seq![(dma_len % 256) as u8, (dma_len / 256) as u8, 0u8, 0u8, BLE_ADV_HEADER0, pdu_payload_len as u8]
                    + adv_addr_le@.take(i as int),
            decreases 6 - i,
        {
            tx_packet.push(adv_addr_le[i]);
            i = i + 1;
        }
        let mut j: usize = 0;
        while j < adv_data.len()
            invariant
                adv_data@.len() <= 31,
                j <= adv_data@.len(),
                tx_packet@ =~= seq![(dma_len % 256) as u8, (dma_len / 256) as u8, 0u8, 0u8, BLE_ADV_HEADER0, pdu_payload_len as u8]
                    + adv_addr_le@ + adv_data@.take(j as int),
            decreases adv_data@.len() - j,
        {
            tx_packet.push(adv_data[j]);
            j = j + 1;
        }
        let ghost framed = tx_packet@;
        while tx_packet.len() < TX_PACKET_LEN
            invariant
                framed.len() <= tx_packet@.len() <= TX_PACKET_LEN,
                tx_packet@ =~= framed + Seq::new((tx_packet@.len() - framed.len()) as nat, |k: int| 0u8),
            decreases TX_PACKET_LEN - tx_packet@.len(),
        {
            tx_packet.push(0);
        }
        assert(adv_data@.take(adv_data@.len() as int) =~= adv_data@);
        assert(adv_addr_le@.take(6) =~= adv_addr_le@);
        assert(tx_packet@ =~= adv_packet(adv_addr_le@, adv_data@));
        Ok(BeaconAdvertiser { radio, config, tx_packet, next_event_at: now.wrapping_sub(config.interval_us) })
    }

    /// The radio settings for advertising on `channel` at the configured power.
    pub fn adv_config(&self, channel: u8) -> (c: BleConfig)
        ensures
            c.channel == channel,
            c.access_code == 0x8e89_bed6,
            c.crc@ == seq![0x55u8, 0x55u8, 0x55u8],
            c.power == self.spec_config().power,
    {
        BleConfig::advertising(channel).with_power(self.config.power)
    }

    /// Brings the radio up for BLE on the first configured channel with the
    /// success and timeout interrupts enabled.
    pub fn init(&mut self, ops: &mut Vec<RegOp>) -> (r: Result<(), BeaconError>)
        ensures
            final(self).spec_config() == old(self).spec_config(),
            final(self).spec_tx_packet() == old(self).spec_tx_packet(),
            final(self).spec_next_event_at() == old(self).spec_next_event_at(),
            (old(self).spec_config().channels[0] > 39) <==> r is Err,
            r matches Err(e) ==> e == BeaconError::Radio(RadioError::InvalidBleChannel(old(self).spec_config().channels[0])),
            r is Ok ==> final(ops)@ == old(ops)@ + beacon_init_ops(old(self).spec_config()),
            r is Err ==> final(ops)@ == old(ops)@ + base_init_ops() + ble_phy_init_ops() + ble_advertising_config_ops(37)
                + seq![power_op(old(self).spec_config().power)],
    {
        let ghost start = ops@;
        let r0 = self.radio.init_mode(ops, RadioMode::Ble1M);
        let ghost mid = ops@;
        let c = self.adv_config(self.config.channels[0]);
        assert(c.crc[0] == 0x55 && c.crc[1] == 0x55 && c.crc[2] == 0x55);
        assert(crate::radio::crc_word(c.crc) == crate::radio::crc_word(adv_config_spec(self.config, self.config.channels[0]).crc));
        assert(ble_config_ops(c) == ble_config_ops(adv_config_spec(self.config, self.config.channels[0])));
        match self.radio.apply_ble_config(ops, c) {
            Ok(()) => {},
            Err(e) => {
                assert(ops@ =~= start + base_init_ops() + ble_phy_init_ops() + ble_advertising_config_ops(37)
                    + seq![power_op(self.config.power)]);
                return Err(BeaconError::Radio(e));
            },
        }
        // No TX DMA channel enable is emitted here: the radio driver
        // defines no such operation to call.
        self.radio.clear_all_irq_status(ops);
        self.radio.clear_irq_mask(ops, IrqFlags(IrqFlags::ALL));
        self.radio.set_irq_mask(ops, IrqFlags(SUCCESS_IRQ_BITS | TIMEOUT_IRQ_BITS));
        assert(SUCCESS_IRQ_BITS | TIMEOUT_IRQ_BITS == 0x1122u16) by (bit_vector);
        assert(ops@ =~= start + base_init_ops() + ble_phy_init_ops() + ble_advertising_config_ops(37)
            + ble_config_ops(adv_config_spec(self.config, self.config.channels[0])) + seq![
                RegOp::Write16 { addr: REG_RF_IRQ_STATUS, value: 0x1fff },
                RegOp::Modify16 { addr: REG_RF_IRQ_MASK, clear: 0x1fff, set: 0 },
                RegOp::Modify16 { addr: REG_RF_IRQ_MASK, clear: 0, set: 0x1122 },
            ]);
        Ok(())
    }

    pub fn radio(&self) -> (r: &Radio) {
        &self.radio
    }

    pub fn radio_mut(&mut self) -> (r: &mut Radio)
        ensures
            final(self).spec_config() == old(self).spec_config(),
            final(self).spec_tx_packet() == old(self).spec_tx_packet(),
            final(self).spec_next_event_at() == old(self).spec_next_event_at(),
    {
        &mut self.radio
    }

    /// The advertising packet as handed to the TX DMA.
    pub fn tx_packet(&self) -> (p: &[u8])
        ensures
            p@ == self.spec_tx_packet(),
    {
        self.tx_packet.as_slice()
    }

    /// Whether an advertising interval has passed since the last event.
    pub fn should_run_event(&self, now: u32) -> (b: bool)
        ensures
            b == (elapsed(now, self.spec_next_event_at()) > (self.spec_config().interval_us as int * 16) % 0x1_0000_0000),
    {
        clock_time_exceed_us(now, self.next_event_at, self.config.interval_us)
    }

    /// Decides whether an event is due at `now`; when it is, the next
    /// interval is counted from `now` and the caller runs the burst.
    /// When an advertising event is due at `now`, counts the next interval
    /// from `now` and starts a burst over the configured channels.
    pub fn run_event_if_due(&mut self, now: u32) -> (r: Option<BeaconBurst>)
        ensures
            r == (if old(self).should_run_event_spec(now) {
                Some(BeaconBurst::start(old(self).spec_config().channels))
            } else {
                None::<BeaconBurst>
            }),
            final(self).spec_next_event_at() == (if r is Some { now } else { old(self).spec_next_event_at() }),
            final(self).spec_config() == old(self).spec_config(),
            final(self).spec_tx_packet() == old(self).spec_tx_packet(),
    {
        if !self.should_run_event(now) {
            return None;
        }
        self.next_event_at = now;
        Some(self.run_event())
    }

    pub open spec fn should_run_event_spec(&self, now: u32) -> bool {
        elapsed(now, self.spec_next_event_at()) > (self.spec_config().interval_us as int * 16) % 0x1_0000_0000
    }

    /// A new burst over the configured channels; [`Self::burst_step`] runs it.
    pub fn run_event(&self) -> (b: BeaconBurst)
        ensures
            b == BeaconBurst::start(self.spec_config().channels),
            burst_wf(b),
    {
        BeaconBurst { progress: BeaconEventProgress::new(self.config.channels), phase: BurstPhase::NextChannel }
    }

    /// Switches the radio off and programs the channel of `p`, or ends the
    /// burst when all three channels went out or the channel is refused.
    fn enter_channel(&mut self, p: BeaconEventProgress, ops: &mut Vec<RegOp>) -> (r: (BeaconBurst, BurstAction))
        requires
            p.index <= 3,
        ensures
            ({
                let n = enter_channel_spec(p, old(self).spec_config());
                &&& r.0 == n.0
                &&& final(ops)@ == old(ops)@ + n.1
                &&& r.1 == n.2
            }),
            final(self).spec_config() == old(self).spec_config(),
            final(self).spec_tx_packet() == old(self).spec_tx_packet(),
            final(self).spec_next_event_at() == old(self).spec_next_event_at(),
    {
        let ghost start = ops@;
        match p.current_channel() {
            None => {
                let r = p.finish();
                (BeaconBurst { progress: p, phase: BurstPhase::Done(r) }, BurstAction::Finished(r))
            },
            Some(ch) => {
                self.radio.set_tx_rx_off(ops);
                let c = self.adv_config(ch);
                assert(c.crc[0] == 0x55 && c.crc[1] == 0x55 && c.crc[2] == 0x55);
                assert(crate::radio::crc_word(c.crc) == crate::radio::crc_word(adv_config_spec(self.config, ch).crc));
                assert(ble_config_ops(c) == ble_config_ops(adv_config_spec(self.config, ch)));
                match self.radio.apply_ble_config(ops, c) {
                    Ok(()) => {
                        assert(ops@ =~= start + (tx_rx_off_ops() + ble_config_ops(adv_config_spec(self.config, ch))));
                        (BeaconBurst { progress: p, phase: BurstPhase::SettleStart }, BurstAction::ReadTick)
                    },
                    Err(_) => {
                        assert(ops@ =~= start + tx_rx_off_ops().push(power_op(self.config.power)));
                        let r = p.config_failed();
                        (BeaconBurst { progress: p, phase: BurstPhase::Done(r) }, BurstAction::Finished(r))
                    },
                }
            },
        }
    }

    /// One step of the advertising burst `burst`: the register work for
    /// event `ev` and what to read next. `tx_addr` is where the packet of
    /// [`Self::tx_packet`] lies for the TX DMA.
    pub fn burst_step(&mut self, burst: &mut BeaconBurst, tx_addr: usize, ops: &mut Vec<RegOp>, ev: BurstEvent) -> (a:
        BurstAction)
        requires
            burst_wf(*old(burst)),
        ensures
            ({
                let n = burst_next(*old(burst), old(self).spec_config(), tx_addr, ev);
                &&& *final(burst) == n.0
                &&& final(ops)@ == old(ops)@ + n.1
                &&& a == n.2
            }),
            burst_wf(*final(burst)),
            a matches BurstAction::Finished(r) ==> result_wf(r, old(burst).progress.channels),
            final(self).spec_config() == old(self).spec_config(),
            final(self).spec_tx_packet() == old(self).spec_tx_packet(),
            final(self).spec_next_event_at() == old(self).spec_next_event_at(),
    {
        proof {
            lemma_burst_step_wf(*burst, self.config, tx_addr, ev);
        }
        let ghost start = ops@;
        let b = *burst;
        let mut p = b.progress;
        match b.phase {
            BurstPhase::NextChannel => {
                let (nb, a) = self.enter_channel(p, ops);
                *burst = nb;
                a
            },
            BurstPhase::SettleStart => {
                if let BurstEvent::Tick(now) = ev {
                    *burst = BeaconBurst { progress: p, phase: BurstPhase::Settling { start: now } };
                }
                BurstAction::ReadTick
            },
            BurstPhase::Settling { start: t0 } => {
                if let BurstEvent::Tick(now) = ev {
                    if clock_time_exceed_us(now, t0, self.config.channel_settle_us) {
                        self.radio.clear_all_irq_status(ops);
                        p.begin_tx();
                        *burst = BeaconBurst { progress: p, phase: BurstPhase::TxAt };
                    }
                }
                BurstAction::ReadTick
            },
            BurstPhase::TxAt => {
                if let BurstEvent::Tick(now) = ev {
                    let tick = now.wrapping_add(TX_START_DELAY_US);
                    match self.radio.start_srx2tx_at(ops, tx_addr, TX_PACKET_LEN, tick) {
                        Ok(()) => {
                            *burst = BeaconBurst { progress: p, phase: BurstPhase::WaitStart };
                            BurstAction::ReadTick
                        },
                        Err(_) => {
                            let r = p.start_tx_failed();
                            *burst = BeaconBurst { progress: p, phase: BurstPhase::Done(r) };
                            BurstAction::Finished(r)
                        },
                    }
                } else {
                    BurstAction::ReadTick
                }
            },
            BurstPhase::WaitStart => {
                if let BurstEvent::Tick(now) = ev {
                    *burst = BeaconBurst { progress: p, phase: BurstPhase::Waiting { start: now } };
                }
                BurstAction::ReadTick
            },
            BurstPhase::Waiting { start: t0 } => {
                if let BurstEvent::Tick(now) = ev {
                    if clock_time_exceed_us(now, t0, self.config.tx_timeout_us) {
                        let r = p.wait_expired();
                        *burst = BeaconBurst { progress: b.progress, phase: BurstPhase::Done(r) };
                        BurstAction::Finished(r)
                    } else {
                        *burst = BeaconBurst { progress: p, phase: BurstPhase::Polling { start: t0 } };
                        BurstAction::ReadIrq
                    }
                } else {
                    BurstAction::ReadTick
                }
            },
            BurstPhase::Polling { start: t0 } => {
                if let BurstEvent::Irq(irq) = ev {
                    match p.on_irq(irq) {
                        BeaconIrqAction::KeepWaiting => {
                            *burst = BeaconBurst { progress: p, phase: BurstPhase::Waiting { start: t0 } };
                            BurstAction::ReadTick
                        },
                        BeaconIrqAction::ChannelSent { clear } => {
                            self.radio.clear_irq_status(ops, IrqFlags(clear));
                            let ghost mid = ops@;
                            let (nb, a) = self.enter_channel(p, ops);
                            assert(ops@ =~= start + (seq![RegOp::Write16 { addr: REG_RF_IRQ_STATUS, value: clear }]
                                + enter_channel_spec(p, self.config).1));
                            *burst = nb;
                            a
                        },
                        BeaconIrqAction::Failed { clear, result } => {
                            self.radio.clear_irq_status(ops, IrqFlags(clear));
                            *burst = BeaconBurst { progress: b.progress, phase: BurstPhase::Done(result) };
                            BurstAction::Finished(result)
                        },
                    }
                } else {
                    BurstAction::ReadIrq
                }
            },
            BurstPhase::Done(r) => BurstAction::Finished(r),
        }
    }
}

/// Where an advertising burst stands.
#[derive(Clone, Copy, Debug, PartialEq, Eq, Structural)]
pub enum BurstPhase {
    /// Program the radio for the channel at the progress index.
    NextChannel,
    /// The channel is programmed; the settle time starts at the next tick.
    SettleStart,
    /// Waiting for the channel to settle since `start`.
    Settling { start: u32 },
    /// The status is cleared; the transmission is scheduled from the next tick.
    TxAt,
    /// The transmission is scheduled; the TX timeout starts at the next tick.
    WaitStart,
    /// Waiting for the packet since `start`; the next tick decides whether
    /// the timeout passed.
    Waiting { start: u32 },
    /// Within the timeout; the next interrupt status decides.
    Polling { start: u32 },
    /// The burst is over with this result.
    Done(BeaconEventResult),
}

/// An advertising burst in progress.
#[derive(Clone, Copy, Debug, PartialEq, Eq)]
pub struct BeaconBurst {
    pub progress: BeaconEventProgress,
    pub phase: BurstPhase,
}

impl BeaconBurst {
    pub open spec fn start(channels: [u8; 3]) -> Self {
        BeaconBurst { progress: BeaconEventProgress::start(channels), phase: BurstPhase::NextChannel }
    }
}

/// What the burst was handed: the start signal, a system tick just read,
/// or the radio interrupt status just read.
#[derive(Clone, Copy, Debug, PartialEq, Eq, Structural)]
pub enum BurstEvent {
    Begin,
    Tick(u32),
    Irq(u16),
}

/// What the burst asks for next.
#[derive(Clone, Copy, Debug, PartialEq, Eq, Structural)]
pub enum BurstAction {
    /// Read the system tick and hand it back as [`BurstEvent::Tick`].
    ReadTick,
    /// Read the radio interrupt status and hand it back as [`BurstEvent::Irq`].
    ReadIrq,
    /// The burst is over.
    Finished(BeaconEventResult),
}

/// Whether more than `us` microseconds passed from `start` to `now`.
pub open spec fn us_passed(now: u32, start: u32, us: u32) -> bool {
    elapsed(now, start) > (us as int * 16) % 0x1_0000_0000
}

pub open spec fn progress_failure(
    p: BeaconEventProgress,
    reason: BeaconFailureReason,
    tx_timeout: u8,
    tx_other_irq: u8,
    last_irq: u16,
) -> BeaconEventResult {
    BeaconEventResult {
        ok: false,
        failed_channel: p.channels[p.index as int],
        tx_attempts: p.tx_attempts,
        tx_ok: p.tx_ok,
        tx_timeout,
        tx_other_irq,
        last_irq,
        failure_reason: Some(reason),
    }
}

pub open spec fn progress_success(p: BeaconEventProgress) -> BeaconEventResult {
    BeaconEventResult {
        ok: true,
        failed_channel: 0,
        tx_attempts: p.tx_attempts,
        tx_ok: p.tx_ok,
        tx_timeout: 0,
        tx_other_irq: 0,
        last_irq: p.last_irq,
        failure_reason: None,
    }
}

pub open spec fn done(p: BeaconEventProgress, r: BeaconEventResult, ops: Seq<RegOp>) -> (BeaconBurst, Seq<RegOp>, BurstAction) {
    (BeaconBurst { progress: p, phase: BurstPhase::Done(r) }, ops, BurstAction::Finished(r))
}

/// Radio off, then the channel of `p` programmed; the burst ends when all
/// three channels went out, or with a configuration failure when the radio
/// refuses the channel.
pub open spec fn enter_channel_spec(p: BeaconEventProgress, config: BeaconConfig) -> (BeaconBurst, Seq<RegOp>, BurstAction) {
    if p.index >= 3 {
        done(p, progress_success(p), Seq::empty())
    } else {
        let ch = p.channels[p.index as int];
        if ch > 39 {
            done(
                p,
                progress_failure(p, BeaconFailureReason::Config, p.tx_timeout, sat_inc(p.tx_other_irq), p.last_irq),
                tx_rx_off_ops().push(power_op(config.power)),
            )
        } else {
            (
                BeaconBurst { progress: p, phase: BurstPhase::SettleStart },
                tx_rx_off_ops() + ble_config_ops(adv_config_spec(config, ch)),
                BurstAction::ReadTick,
            )
        }
    }
}

pub open spec fn wait(b: BeaconBurst, phase: BurstPhase, a: BurstAction) -> (BeaconBurst, Seq<RegOp>, BurstAction) {
    (BeaconBurst { phase, ..b }, Seq::empty(), a)
}

/// The burst after event `ev`: its next state, the register work, and what
/// to read next. Events of the wrong kind for the phase change nothing.
pub open spec fn burst_next(b: BeaconBurst, config: BeaconConfig, tx_addr: usize, ev: BurstEvent) -> (
    BeaconBurst,
    Seq<RegOp>,
    BurstAction,
) {
    let p = b.progress;
    match b.phase {
        BurstPhase::NextChannel => enter_channel_spec(p, config),
        BurstPhase::SettleStart => match ev {
            BurstEvent::Tick(now) => wait(b, BurstPhase::Settling { start: now }, BurstAction::ReadTick),
            _ => wait(b, b.phase, BurstAction::ReadTick),
        },
        BurstPhase::Settling { start } => match ev {
            BurstEvent::Tick(now) => if us_passed(now, start, config.channel_settle_us) {
                (
                    BeaconBurst {
                        progress: BeaconEventProgress { tx_attempts: wrap_inc(p.tx_attempts), ..p },
                        phase: BurstPhase::TxAt,
                    },
                    seq![RegOp::Write16 { addr: REG_RF_IRQ_STATUS, value: 0x1fff }],
                    BurstAction::ReadTick,
                )
            } else {
                wait(b, b.phase, BurstAction::ReadTick)
            },
            _ => wait(b, b.phase, BurstAction::ReadTick),
        },
        BurstPhase::TxAt => match ev {
            BurstEvent::Tick(now) => if tx_buffer_error(tx_addr, TX_PACKET_LEN) is Some {
                done(
                    p,
                    progress_failure(p, BeaconFailureReason::StartTx, p.tx_timeout, sat_inc(p.tx_other_irq), p.last_irq),
                    Seq::empty(),
                )
            } else {
                (
                    BeaconBurst { phase: BurstPhase::WaitStart, ..b },
                    buffer_ops(REG_DMA3_ADDR, REG_DMA3_ADDR_HI, tx_addr) + scheduled_command_ops(
                        RF_CMD_SRX2TX,
                        ((now + TX_START_DELAY_US) % 0x1_0000_0000) as u32,
                    ),
                    BurstAction::ReadTick,
                )
            },
            _ => wait(b, b.phase, BurstAction::ReadTick),
        },
        BurstPhase::WaitStart => match ev {
            BurstEvent::Tick(now) => wait(b, BurstPhase::Waiting { start: now }, BurstAction::ReadTick),
            _ => wait(b, b.phase, BurstAction::ReadTick),
        },
        BurstPhase::Waiting { start } => match ev {
            BurstEvent::Tick(now) => if us_passed(now, start, config.tx_timeout_us) {
                done(
                    p,
                    progress_failure(p, BeaconFailureReason::Timeout, wrap_inc(p.tx_timeout), p.tx_other_irq, p.last_irq),
                    Seq::empty(),
                )
            } else {
                wait(b, BurstPhase::Polling { start }, BurstAction::ReadIrq)
            },
            _ => wait(b, b.phase, BurstAction::ReadTick),
        },
        BurstPhase::Polling { start } => match ev {
            BurstEvent::Irq(irq) => if (irq & SUCCESS_IRQ_BITS) != 0 {
                let n = enter_channel_spec(
                    BeaconEventProgress { last_irq: irq, tx_ok: wrap_inc(p.tx_ok), index: (p.index + 1) as usize, ..p },
                    config,
                );
                (n.0, seq![RegOp::Write16 { addr: REG_RF_IRQ_STATUS, value: SUCCESS_IRQ_BITS }] + n.1, n.2)
            } else if (irq & TIMEOUT_IRQ_BITS) != 0 {
                done(
                    p,
                    progress_failure(p, BeaconFailureReason::Timeout, wrap_inc(p.tx_timeout), p.tx_other_irq, irq),
                    seq![RegOp::Write16 { addr: REG_RF_IRQ_STATUS, value: TIMEOUT_IRQ_BITS }],
                )
            } else if irq != 0 {
                done(
                    p,
                    progress_failure(p, BeaconFailureReason::UnexpectedIrq, p.tx_timeout, wrap_inc(p.tx_other_irq), irq),
                    seq![RegOp::Write16 { addr: REG_RF_IRQ_STATUS, value: 0x1fff }],
                )
            } else {
                (
                    BeaconBurst { progress: BeaconEventProgress { last_irq: 0, ..p }, phase: BurstPhase::Waiting { start } },
                    Seq::empty(),
                    BurstAction::ReadTick,
                )
            },
            _ => wait(b, b.phase, BurstAction::ReadIrq),
        },
        BurstPhase::Done(r) => wait(b, b.phase, BurstAction::Finished(r)),
    }
}

/// What an ended burst reports: success means three attempts and three
/// packets sent; a failure names the channel it stopped on, counts exactly
/// one timeout or one other interrupt, and counts the attempt on that
/// channel unless its configuration was refused.
pub open spec fn result_wf(r: BeaconEventResult, channels: [u8; 3]) -> bool {
    &&& r.ok <==> r.failure_reason is None
    &&& r.ok ==> r.tx_attempts == 3 && r.tx_ok == 3 && r.tx_timeout == 0 && r.tx_other_irq == 0 && r.failed_channel == 0
    &&& !r.ok ==> r.tx_ok < 3 && r.failed_channel == channels[r.tx_ok as int] && r.tx_timeout + r.tx_other_irq == 1
        && r.tx_attempts == r.tx_ok + (if r.failure_reason == Some(BeaconFailureReason::Config) { 0int } else { 1int })
}

/// The counters of a burst: one packet sent per channel done, no failure
/// counted yet, and one attempt per channel once its transmission is counted.
pub open spec fn burst_wf(b: BeaconBurst) -> bool {
    let p = b.progress;
    &&& p.index <= 3
    &&& p.tx_ok == p.index
    &&& p.tx_timeout == 0
    &&& p.tx_other_irq == 0
    &&& match b.phase {
        BurstPhase::NextChannel => p.tx_attempts == p.index,
        BurstPhase::SettleStart => p.index < 3 && p.tx_attempts == p.index,
        BurstPhase::Settling { .. } => p.index < 3 && p.tx_attempts == p.index,
        BurstPhase::Done(r) => result_wf(r, p.channels),
        _ => p.index < 3 && p.tx_attempts == p.index + 1,
    }
}

/// A step keeps the burst's counters consistent, never changes its
/// channels, and any result it reports is well formed.
pub proof fn lemma_burst_step_wf(b: BeaconBurst, config: BeaconConfig, tx_addr: usize, ev: BurstEvent)
    requires
        burst_wf(b),
    ensures
        burst_wf(burst_next(b, config, tx_addr, ev).0),
        burst_next(b, config, tx_addr, ev).0.progress.channels == b.progress.channels,
        burst_next(b, config, tx_addr, ev).2 matches BurstAction::Finished(r) ==> result_wf(r, b.progress.channels)
            && burst_next(b, config, tx_addr, ev).0.phase == BurstPhase::Done(r),
{
}

/// The burst after the events `evs`, in order.
pub open spec fn burst_run(b: BeaconBurst, config: BeaconConfig, tx_addr: usize, evs: Seq<BurstEvent>) -> BeaconBurst
    decreases evs.len(),
{
    if evs.len() == 0 {
        b
    } else {
        burst_next(burst_run(b, config, tx_addr, evs.drop_last()), config, tx_addr, evs.last()).0
    }
}

/// Whatever the radio and the clock report, a burst started by
/// `run_event` stays consistent, and once over it reports a well-formed
/// result for its channels.
pub proof fn lemma_burst_results_wf(channels: [u8; 3], config: BeaconConfig, tx_addr: usize, evs: Seq<BurstEvent>)
    ensures
        burst_wf(burst_run(BeaconBurst::start(channels), config, tx_addr, evs)),
        burst_run(BeaconBurst::start(channels), config, tx_addr, evs).progress.channels == channels,
        burst_run(BeaconBurst::start(channels), config, tx_addr, evs).phase matches BurstPhase::Done(r) ==> result_wf(
            r,
            channels,
        ),
    decreases evs.len(),
{
    if evs.len() > 0 {
        lemma_burst_results_wf(channels, config, tx_addr, evs.drop_last());
        lemma_burst_step_wf(burst_run(BeaconBurst::start(channels), config, tx_addr, evs.drop_last()), config, tx_addr, evs.last());
    }
}

/// What to do after reading the radio interrupt status while waiting for a
/// channel's packet to go out.
#[derive(Clone, Copy, Debug, PartialEq, Eq, Structural)]
pub enum BeaconIrqAction {
    /// Nothing pending yet: keep polling until the TX timeout.
    KeepWaiting,
    /// The packet went out: acknowledge `clear` and go on with the next channel.
    ChannelSent { clear: u16 },
    /// The burst is over: acknowledge `clear` and report `result`.
    Failed { clear: u16, result: BeaconEventResult },
}

/// Counters of an advertising burst in progress over three channels.
#[derive(Clone, Copy, Debug, PartialEq, Eq)]
pub struct BeaconEventProgress {
    pub channels: [u8; 3],
    pub index: usize,
    pub tx_attempts: u8,
    pub tx_ok: u8,
    pub tx_timeout: u8,
    pub tx_other_irq: u8,
    pub last_irq: u16,
}

pub open spec fn wrap_inc(v: u8) -> u8 {
    ((v + 1) % 256) as u8
}

pub open spec fn sat_inc(v: u8) -> u8 {
    if v == 255 { 255 } else { (v + 1) as u8 }
}

impl BeaconEventProgress {
    pub open spec fn start(channels: [u8; 3]) -> Self {
        BeaconEventProgress { channels, index: 0, tx_attempts: 0, tx_ok: 0, tx_timeout: 0, tx_other_irq: 0, last_irq: 0 }
    }

    pub fn new(channels: [u8; 3]) -> (p: Self)
        ensures
            p == Self::start(channels),
    {
        BeaconEventProgress { channels, index: 0, tx_attempts: 0, tx_ok: 0, tx_timeout: 0, tx_other_irq: 0, last_irq: 0 }
    }

    /// The channel to advertise on next, or `None` once all three went out.
    pub fn current_channel(&self) -> (c: Option<u8>)
        ensures
            c == (if self.index < 3 { Some(self.channels[self.index as int]) } else { None::<u8> }),
    {
        if self.index < 3 {
            Some(self.channels[self.index])
        } else {
            None
        }
    }

    /// The result when the radio refused the current channel's settings.
    pub fn config_failed(&self) -> (r: BeaconEventResult)
        requires
            self.index < 3,
        ensures
            r == (BeaconEventResult {
                ok: false,
                failed_channel: self.channels[self.index as int],
                tx_attempts: self.tx_attempts,
                tx_ok: self.tx_ok,
                tx_timeout: self.tx_timeout,
                tx_other_irq: sat_inc(self.tx_other_irq),
                last_irq: self.last_irq,
                failure_reason: Some(BeaconFailureReason::Config),
            }),
    {
        BeaconEventResult::fail(
            self.channels[self.index],
            self.tx_attempts,
            self.tx_ok,
            self.tx_timeout,
            self.tx_other_irq.saturating_add(1),
            self.last_irq,
            BeaconFailureReason::Config,
        )
    }

    /// Counts a transmission attempt on the current channel.
    pub fn begin_tx(&mut self)
        ensures
            *final(self) == (BeaconEventProgress { tx_attempts: wrap_inc(old(self).tx_attempts), ..*old(self) }),
    {
        self.tx_attempts = self.tx_attempts.wrapping_add(1);
    }

    /// The result when the radio refused to start the transmission.
    pub fn start_tx_failed(&self) -> (r: BeaconEventResult)
        requires
            self.index < 3,
        ensures
            r == (BeaconEventResult {
                ok: false,
                failed_channel: self.channels[self.index as int],
                tx_attempts: self.tx_attempts,
                tx_ok: self.tx_ok,
                tx_timeout: self.tx_timeout,
                tx_other_irq: sat_inc(self.tx_other_irq),
                last_irq: self.last_irq,
                failure_reason: Some(BeaconFailureReason::StartTx),
            }),
    {
        BeaconEventResult::fail(
            self.channels[self.index],
            self.tx_attempts,
            self.tx_ok,
            self.tx_timeout,
            self.tx_other_irq.saturating_add(1),
            self.last_irq,
            BeaconFailureReason::StartTx,
        )
    }

    /// Classifies the interrupt status `irq` read while waiting: success
    /// bits win over the timeout bit, which wins over any other bit.
    pub fn on_irq(&mut self, irq: u16) -> (a: BeaconIrqAction)
        requires
            old(self).index < 3,
        ensures
            final(self).channels == old(self).channels,
            final(self).last_irq == irq,
            (irq & SUCCESS_IRQ_BITS) != 0 ==> a == (BeaconIrqAction::ChannelSent { clear: SUCCESS_IRQ_BITS })
                && final(self).index == old(self).index + 1 && final(self).tx_ok == wrap_inc(old(self).tx_ok)
                && final(self).tx_attempts == old(self).tx_attempts && final(self).tx_timeout == old(self).tx_timeout
                && final(self).tx_other_irq == old(self).tx_other_irq,
            (irq & SUCCESS_IRQ_BITS) == 0 && (irq & TIMEOUT_IRQ_BITS) != 0 ==> final(self).tx_timeout == wrap_inc(old(self).tx_timeout)
                && a == (BeaconIrqAction::Failed {
                    clear: TIMEOUT_IRQ_BITS,
                    result: BeaconEventResult {
                        ok: false,
                        failed_channel: old(self).channels[old(self).index as int],
                        tx_attempts: old(self).tx_attempts,
                        tx_ok: old(self).tx_ok,
                        tx_timeout: wrap_inc(old(self).tx_timeout),
                        tx_other_irq: old(self).tx_other_irq,
                        last_irq: irq,
                        failure_reason: Some(BeaconFailureReason::Timeout),
                    },
                }),
            (irq & SUCCESS_IRQ_BITS) == 0 && (irq & TIMEOUT_IRQ_BITS) == 0 && irq != 0 ==> final(self).tx_other_irq == wrap_inc(old(self).tx_other_irq)
                && a == (BeaconIrqAction::Failed {
                    clear: 0x1fff,
                    result: BeaconEventResult {
                        ok: false,
                        failed_channel: old(self).channels[old(self).index as int],
                        tx_attempts: old(self).tx_attempts,
                        tx_ok: old(self).tx_ok,
                        tx_timeout: old(self).tx_timeout,
                        tx_other_irq: wrap_inc(old(self).tx_other_irq),
                        last_irq: irq,
                        failure_reason: Some(BeaconFailureReason::UnexpectedIrq),
                    },
                }),
            irq == 0 ==> a == BeaconIrqAction::KeepWaiting && *final(self) == (BeaconEventProgress { last_irq: 0, ..*old(self) }),
    {
        proof {
            assert((irq & 0x0122u16) != 0 ==> irq != 0) by (bit_vector);
            assert((irq & 0x1000u16) != 0 ==> irq != 0) by (bit_vector);
        }
        self.last_irq = irq;
        if (irq & SUCCESS_IRQ_BITS) != 0 {
            self.tx_ok = self.tx_ok.wrapping_add(1);
            self.index = self.index + 1;
            return BeaconIrqAction::ChannelSent { clear: SUCCESS_IRQ_BITS };
        }
        if (irq & TIMEOUT_IRQ_BITS) != 0 {
            self.tx_timeout = self.tx_timeout.wrapping_add(1);
            return BeaconIrqAction::Failed {
                clear: TIMEOUT_IRQ_BITS,
                result: BeaconEventResult::fail(
                    self.channels[self.index],
                    self.tx_attempts,
                    self.tx_ok,
                    self.tx_timeout,
                    self.tx_other_irq,
                    irq,
                    BeaconFailureReason::Timeout,
                ),
            };
        }
        if irq != 0 {
            self.tx_other_irq = self.tx_other_irq.wrapping_add(1);
            return BeaconIrqAction::Failed {
                clear: 0x1fff,
                result: BeaconEventResult::fail(
                    self.channels[self.index],
                    self.tx_attempts,
                    self.tx_ok,
                    self.tx_timeout,
                    self.tx_other_irq,
                    irq,
                    BeaconFailureReason::UnexpectedIrq,
                ),
            };
        }
        BeaconIrqAction::KeepWaiting
    }

    /// The result when the TX timeout passed without any interrupt.
    pub fn wait_expired(&mut self) -> (r: BeaconEventResult)
        requires
            old(self).index < 3,
        ensures
            *final(self) == (BeaconEventProgress { tx_timeout: wrap_inc(old(self).tx_timeout), ..*old(self) }),
            r == (BeaconEventResult {
                ok: false,
                failed_channel: old(self).channels[old(self).index as int],
                tx_attempts: old(self).tx_attempts,
                tx_ok: old(self).tx_ok,
                tx_timeout: wrap_inc(old(self).tx_timeout),
                tx_other_irq: old(self).tx_other_irq,
                last_irq: old(self).last_irq,
                failure_reason: Some(BeaconFailureReason::Timeout),
            }),
    {
        self.tx_timeout = self.tx_timeout.wrapping_add(1);
        BeaconEventResult::fail(
            self.channels[self.index],
            self.tx_attempts,
            self.tx_ok,
            self.tx_timeout,
            self.tx_other_irq,
            self.last_irq,
            BeaconFailureReason::Timeout,
        )
    }

    /// The result of a burst in which every channel went out.
    pub fn finish(&self) -> (r: BeaconEventResult)
        ensures
            r == (BeaconEventResult {
                ok: true,
                failed_channel: 0,
                tx_attempts: self.tx_attempts,
                tx_ok: self.tx_ok,
                tx_timeout: 0,
                tx_other_irq: 0,
                last_irq: self.last_irq,
                failure_reason: None,
            }),
    {
        BeaconEventResult::ok(self.tx_attempts, self.tx_ok, self.last_irq)
    }
}

/// The register writes that bring the radio up for advertising with `config`.
pub open spec fn beacon_init_ops(config: BeaconConfig) -> Seq<RegOp> {
    base_init_ops() + ble_phy_init_ops() + ble_advertising_config_ops(37) + ble_config_ops(
        adv_config_spec(config, config.channels[0]),
    ) + seq![
        RegOp::Write16 { addr: REG_RF_IRQ_STATUS, value: 0x1fff },
        RegOp::Modify16 { addr: REG_RF_IRQ_MASK, clear: 0x1fff, set: 0 },
        RegOp::Modify16 { addr: REG_RF_IRQ_MASK, clear: 0, set: 0x1122 },
    ]
}

pub open spec fn adv_config_spec(config: BeaconConfig, channel: u8) -> BleConfig {
    BleConfig { channel, access_code: 0x8e89_bed6, crc: [0x55u8, 0x55u8, 0x55u8], power: config.power }
}

} // verus!
