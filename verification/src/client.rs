//! The client station: its authentication/association lifecycle, data-frame
//! admission and EAPOL bridging.
//!
//! Exactly one state value exists at a time; every transition replaces it.
//! All outbound frames go through the buffer gateway; all indications and
//! confirmations go through the upper-layer queue. No failure here is
//! fatal: a failed transmission is reported to the caller or to the upper
//! layer, and a malformed frame is dropped.

use vstd::prelude::*;
use crate::device::{
    AuthenticateResultCode, BufferProvider, Device, EapolResultCode, SmeMessage, TxFlags,
};
use crate::error::Error;
use crate::frame_writer::{
    assoc_req_frame_bytes, data_frame_bytes, deauth_frame_bytes, keep_alive_resp_frame_bytes,
    open_auth_frame_bytes, ps_poll_frame_bytes, write_assoc_req_frame, write_data_frame,
    write_deauth_frame, write_keep_alive_resp_frame, write_open_auth_frame, write_ps_poll_frame,
};
use crate::mac::{
    amsdu_subframes, data_body_offset, data_frame_msdus, eth_frame_bytes, is_data_frame_bytes,
    is_null_data_frame, parse_data_frame, parse_single_llc, single_llc_msdu, Aid, AmsduIter,
    AssocRespHdr, AuthHdr, Bssid, DeauthHdr, MacAddr, MgmtHdr, Msdu, ReasonCode, SpecMsdu,
    write_eth_frame, MAX_ETH_FRAME_LEN,
};
use crate::bits::{get_bits16, read_bit_u16};
use crate::buffer_reader::BufferReader;
use crate::wire::u16_from_le;
use crate::sequence::{nth_seq_num, SequenceManager};
use crate::timer::{EventId, Timer};

verus! {

/// Maximum size of EAPOL frames forwarded to the upper layer; larger
/// payloads are rejected to bound the buffering of control traffic.
pub const MAX_EAPOL_FRAME_LEN: usize = 255;

/// The payload of a scheduled timeout.
#[derive(Clone, Copy, PartialEq, Eq, Structural, Debug)]
pub enum TimedEvent {
    /// The authentication attempt ran out of time.
    Authenticating,
    /// The association attempt ran out of time.
    Associating,
}

/// Time durations used for different timeouts.
#[derive(Debug, Clone)]
pub struct ClientConfig {
    pub signal_report_beacon_timeout: usize,
    pub ensure_on_channel_time: i64,
}

/// The authentication/association lifecycle. A transition consumes the
/// current state and produces its replacement; no placeholder value exists.
#[derive(Clone, Copy, PartialEq, Eq, Structural, Debug)]
pub enum States {
    /// Initial; also reached on any deauthentication.
    Deauthenticated,
    /// An authentication frame is out; the timeout is scheduled.
    Authenticating { timeout: EventId },
    /// The peer confirmed the authentication.
    Authenticated,
    /// An association request is out; the timeout is scheduled.
    Associating { timeout: EventId },
    /// The peer confirmed the association; data frames flow.
    Associated,
}

/// A station running in client mode.
pub struct Client {
    pub device: Device,
    pub buf_provider: BufferProvider,
    pub timer: Timer<TimedEvent>,
    pub seq_mgr: SequenceManager,
    pub bssid: Bssid,
    pub iface_mac: MacAddr,
    pub state: States,
}

/// The sequence number the next non-QoS frame will carry.
pub open spec fn next_non_qos_sn(c: Client) -> u16 {
    nth_seq_num(c.seq_mgr.counters_spec()[0], 1)
}

/// Everything except the gateway queues and the sequence counters is as it
/// was.
pub open spec fn station_core_unchanged(pre: Client, post: Client) -> bool {
    &&& post.bssid == pre.bssid
    &&& post.iface_mac == pre.iface_mac
    &&& post.buf_provider == pre.buf_provider
    &&& post.state == pre.state
    &&& post.timer == pre.timer
}

/// The non-QoS sequence counter advanced once; the others are untouched.
pub open spec fn seq_advanced_non_qos(pre: Client, post: Client) -> bool {
    post.seq_mgr.counters_spec() == pre.seq_mgr.counters_spec().update(
        0,
        next_non_qos_sn(pre),
    )
}

/// Only the wlan queue of the gateway changed.
pub open spec fn device_unchanged_but_wlan(pre: Device, post: Device) -> bool {
    post == (Device { wlan_queue: post.wlan_queue, ..pre })
}

/// Only the upper-layer queue of the gateway changed.
pub open spec fn device_unchanged_but_sme(pre: Device, post: Device) -> bool {
    post == (Device { sme_queue: post.sme_queue, ..pre })
}

/// Only the Ethernet queue of the gateway changed.
pub open spec fn device_unchanged_but_eth(pre: Device, post: Device) -> bool {
    post == (Device { eth_queue: post.eth_queue, ..pre })
}

/// Exactly one frame with these bytes and flags was handed to the lower
/// layer.
pub open spec fn wlan_pushed(pre: Device, post: Device, bytes: Seq<u8>, flags: TxFlags) -> bool {
    &&& device_unchanged_but_wlan(pre, post)
    &&& post.wlan_queue@.len() == pre.wlan_queue@.len() + 1
    &&& post.wlan_queue@ == pre.wlan_queue@.push(post.wlan_queue@.last())
    &&& post.wlan_queue@.last().0@ == bytes
    &&& post.wlan_queue@.last().1 == flags
}

/// Exactly one message was sent to the upper layer.
pub open spec fn sme_pushed(pre: Device, post: Device, msg: SmeMessage) -> bool {
    &&& device_unchanged_but_sme(pre, post)
    &&& post.sme_queue@ == pre.sme_queue@.push(msg)
}

/// Exactly one EAPOL indication with these addresses and payload was sent
/// to the upper layer.
pub open spec fn sme_pushed_eapol_ind(
    pre: Device,
    post: Device,
    src: MacAddr,
    dst: MacAddr,
    data: Seq<u8>,
) -> bool {
    &&& device_unchanged_but_sme(pre, post)
    &&& post.sme_queue@.len() == pre.sme_queue@.len() + 1
    &&& post.sme_queue@ == pre.sme_queue@.push(post.sme_queue@.last())
    &&& (post.sme_queue@.last() matches SmeMessage::EapolInd {
        src_addr,
        dst_addr,
        data: d,
    } && src_addr == src && dst_addr == dst && d@ == data)
}

impl Client {
    /// The sequence counters are intact.
    pub open spec fn wf(&self) -> bool {
        self.seq_mgr.wf()
    }

    pub fn new(
        device: Device,
        buf_provider: BufferProvider,
        bssid: Bssid,
        iface_mac: MacAddr,
    ) -> (r: Self)
        ensures
            r.wf(),
            r.device == device,
            r.buf_provider == buf_provider,
            r.bssid == bssid,
            r.iface_mac == iface_mac,
            r.state == States::Deauthenticated,
            r.timer.events_spec() == Seq::<(EventId, i64, TimedEvent)>::empty(),
            forall|i: int| 0 <= i < 17 ==> #[trigger] r.seq_mgr.counters_spec()[i] == 0,
    {
        Client {
            device,
            buf_provider,
            timer: Timer::new(),
            seq_mgr: SequenceManager::new(),
            bssid,
            iface_mac,
            state: States::Deauthenticated,
        }
    }

    /// The station's sequence number manager.
    pub fn seq_mgr(&mut self) -> (r: &mut SequenceManager)
        ensures
            *r == old(self).seq_mgr,
            *final(self) == (Client { seq_mgr: *final(r), ..*old(self) }),
    {
        &mut self.seq_mgr
    }

    /// The buffer/transmit gateway.
    pub fn device(&mut self) -> (r: &mut Device)
        ensures
            *r == old(self).device,
            *final(self) == (Client { device: *final(r), ..*old(self) }),
    {
        &mut self.device
    }

    /// The timer facility.
    pub fn timer(&mut self) -> (r: &mut Timer<TimedEvent>)
        ensures
            *r == old(self).timer,
            *final(self) == (Client { timer: *final(r), ..*old(self) }),
    {
        &mut self.timer
    }

    /// Sends an authentication frame using Open System authentication.
    pub fn send_open_auth_frame(&mut self) -> (res: Result<(), Error>)
        requires
            old(self).wf(),
        ensures
            final(self).wf(),
            station_core_unchanged(*old(self), *final(self)),
            match res {
                Ok(()) => !old(self).buf_provider.fail && !old(self).device.fail_wlan_tx
                    && seq_advanced_non_qos(*old(self), *final(self))
                    && wlan_pushed(
                    old(self).device,
                    final(self).device,
                    open_auth_frame_bytes(
                        old(self).bssid,
                        old(self).iface_mac,
                        next_non_qos_sn(*old(self)),
                    ),
                    TxFlags::Normal,
                ),
                Err(Error::NoResources) => old(self).buf_provider.fail
                    && *final(self) == *old(self),
                Err(Error::CouldNotDeliverWlanFrame) => !old(self).buf_provider.fail
                    && old(self).device.fail_wlan_tx
                    && seq_advanced_non_qos(*old(self), *final(self))
                    && final(self).device == old(self).device,
                Err(_) => false,
            },
    {
        let mut w = match self.buf_provider.get_buffer(30) {
            Ok(w) => w,
            Err(e) => {
                return Err(e);
            },
        };
        let sn = self.seq_mgr.next(0);
        match write_open_auth_frame(&mut w, self.bssid, self.iface_mac, sn) {
            Ok(()) => {},
            Err(e) => {
                return Err(e);
            },
        }
        let frame = w.into_vec();
        self.device.send_wlan_frame(frame, TxFlags::Normal)
    }

    /// Sends an association request built from the supplied capability
    /// information, SSID, rates and optional elements; the buffer is sized
    /// from the computed element lengths before allocation.
    pub fn send_assoc_req_frame(
        &mut self,
        cap_info: u16,
        ssid: &[u8],
        rates: &[u8],
        rsne: &[u8],
        ht_cap: &[u8],
        vht_cap: &[u8],
    ) -> (res: Result<(), Error>)
        requires
            old(self).wf(),
            ssid@.len() <= 255,
            1 <= rates@.len() <= 263,
            rsne@.len() == 0 || 4 <= rsne@.len() <= 257,
            ht_cap@.len() == 0 || ht_cap@.len() == 26,
            vht_cap@.len() == 0 || vht_cap@.len() == 12,
        ensures
            final(self).wf(),
            station_core_unchanged(*old(self), *final(self)),
            match res {
                Ok(()) => !old(self).buf_provider.fail && !old(self).device.fail_wlan_tx
                    && seq_advanced_non_qos(*old(self), *final(self))
                    && wlan_pushed(
                    old(self).device,
                    final(self).device,
                    assoc_req_frame_bytes(
                        old(self).bssid,
                        old(self).iface_mac,
                        next_non_qos_sn(*old(self)),
                        cap_info,
                        ssid@,
                        rates@,
                        rsne@,
                        ht_cap@,
                        vht_cap@,
                    ),
                    TxFlags::Normal,
                ),
                Err(Error::NoResources) => old(self).buf_provider.fail
                    && *final(self) == *old(self),
                Err(Error::CouldNotDeliverWlanFrame) => !old(self).buf_provider.fail
                    && old(self).device.fail_wlan_tx
                    && seq_advanced_non_qos(*old(self), *final(self))
                    && final(self).device == old(self).device,
                Err(_) => false,
            },
    {
        let rates_first: usize = if rates.len() <= 8 { rates.len() } else { 8 };
        let rates_ext: usize = rates.len() - rates_first;
        let total: usize = 28 + 2 + ssid.len() + 2 + rates_first
            + (if rates_ext > 0 { 2 + rates_ext } else { 0 })
            + (if rsne.len() > 0 { rsne.len() } else { 0 })
            + (if ht_cap.len() > 0 { 2 + ht_cap.len() } else { 0 })
            + (if vht_cap.len() > 0 { 2 + vht_cap.len() } else { 0 });
        let mut w = match self.buf_provider.get_buffer(total) {
            Ok(w) => w,
            Err(e) => {
                return Err(e);
            },
        };
        let sn = self.seq_mgr.next(0);
        match write_assoc_req_frame(
            &mut w,
            self.bssid,
            self.iface_mac,
            sn,
            cap_info,
            ssid,
            rates,
            rsne,
            ht_cap,
            vht_cap,
        ) {
            Ok(()) => {},
            Err(e) => {
                return Err(e);
            },
        }
        let frame = w.into_vec();
        self.device.send_wlan_frame(frame, TxFlags::Normal)
    }

    /// Sends a keep-alive response: a NULL data frame answering the BSS's
    /// keep-alive probe.
    pub fn send_keep_alive_resp_frame(&mut self) -> (res: Result<(), Error>)
        requires
            old(self).wf(),
        ensures
            final(self).wf(),
            station_core_unchanged(*old(self), *final(self)),
            match res {
                Ok(()) => !old(self).buf_provider.fail && !old(self).device.fail_wlan_tx
                    && seq_advanced_non_qos(*old(self), *final(self))
                    && wlan_pushed(
                    old(self).device,
                    final(self).device,
                    keep_alive_resp_frame_bytes(
                        old(self).bssid,
                        old(self).iface_mac,
                        next_non_qos_sn(*old(self)),
                    ),
                    TxFlags::Normal,
                ),
                Err(Error::NoResources) => old(self).buf_provider.fail
                    && *final(self) == *old(self),
                Err(Error::CouldNotDeliverWlanFrame) => !old(self).buf_provider.fail
                    && old(self).device.fail_wlan_tx
                    && seq_advanced_non_qos(*old(self), *final(self))
                    && final(self).device == old(self).device,
                Err(_) => false,
            },
    {
        let mut w = match self.buf_provider.get_buffer(24) {
            Ok(w) => w,
            Err(e) => {
                return Err(e);
            },
        };
        let sn = self.seq_mgr.next(0);
        match write_keep_alive_resp_frame(&mut w, self.bssid, self.iface_mac, sn) {
            Ok(()) => {},
            Err(e) => {
                return Err(e);
            },
        }
        let frame = w.into_vec();
        self.device.send_wlan_frame(frame, TxFlags::Normal)
    }

    /// Sends a deauthentication notification with the given reason code.
    pub fn send_deauth_frame(&mut self, reason_code: ReasonCode) -> (res: Result<(), Error>)
        requires
            old(self).wf(),
        ensures
            final(self).wf(),
            station_core_unchanged(*old(self), *final(self)),
            match res {
                Ok(()) => !old(self).buf_provider.fail && !old(self).device.fail_wlan_tx
                    && seq_advanced_non_qos(*old(self), *final(self))
                    && wlan_pushed(
                    old(self).device,
                    final(self).device,
                    deauth_frame_bytes(
                        old(self).bssid,
                        old(self).iface_mac,
                        next_non_qos_sn(*old(self)),
                        reason_code,
                    ),
                    TxFlags::Normal,
                ),
                Err(Error::NoResources) => old(self).buf_provider.fail
                    && *final(self) == *old(self),
                Err(Error::CouldNotDeliverWlanFrame) => !old(self).buf_provider.fail
                    && old(self).device.fail_wlan_tx
                    && seq_advanced_non_qos(*old(self), *final(self))
                    && final(self).device == old(self).device,
                Err(_) => false,
            },
    {
        let mut w = match self.buf_provider.get_buffer(26) {
            Ok(w) => w,
            Err(e) => {
                return Err(e);
            },
        };
        let sn = self.seq_mgr.next(0);
        match write_deauth_frame(&mut w, self.bssid, self.iface_mac, sn, reason_code) {
            Ok(()) => {},
            Err(e) => {
                return Err(e);
            },
        }
        let frame = w.into_vec();
        self.device.send_wlan_frame(frame, TxFlags::Normal)
    }

    /// Sends the given payload as a non-QoS or QoS data frame over the air;
    /// EAPOL payloads are flagged to favor reliability.
    pub fn send_data_frame(
        &mut self,
        src: MacAddr,
        dst: MacAddr,
        is_protected: bool,
        is_qos: bool,
        ether_type: u16,
        payload: &[u8],
    ) -> (res: Result<(), Error>)
        requires
            old(self).wf(),
            payload@.len() + 34 <= usize::MAX,
        ensures
            final(self).wf(),
            station_core_unchanged(*old(self), *final(self)),
            match res {
                Ok(()) => !old(self).buf_provider.fail && !old(self).device.fail_wlan_tx
                    && seq_advanced_non_qos(*old(self), *final(self))
                    && wlan_pushed(
                    old(self).device,
                    final(self).device,
                    data_frame_bytes(
                        old(self).bssid,
                        src,
                        dst,
                        next_non_qos_sn(*old(self)),
                        is_protected,
                        is_qos,
                        ether_type,
                        payload@,
                    ),
                    if ether_type == 0x888E {
                        TxFlags::FavorReliability
                    } else {
                        TxFlags::Normal
                    },
                ),
                Err(Error::NoResources) => old(self).buf_provider.fail
                    && *final(self) == *old(self),
                Err(Error::CouldNotDeliverWlanFrame) => !old(self).buf_provider.fail
                    && old(self).device.fail_wlan_tx
                    && seq_advanced_non_qos(*old(self), *final(self))
                    && final(self).device == old(self).device,
                Err(_) => false,
            },
    {
        let qos_len: usize = if is_qos { 2 } else { 0 };
        let frame_len: usize = 32 + qos_len + payload.len();
        let mut w = match self.buf_provider.get_buffer(frame_len) {
            Ok(w) => w,
            Err(e) => {
                return Err(e);
            },
        };
        let sn = self.seq_mgr.next(0);
        match write_data_frame(
            &mut w,
            self.bssid,
            src,
            dst,
            sn,
            is_protected,
            is_qos,
            ether_type,
            payload,
        ) {
            Ok(()) => {},
            Err(e) => {
                return Err(e);
            },
        }
        let frame = w.into_vec();
        let tx_flags = if ether_type == 0x888E {
            TxFlags::FavorReliability
        } else {
            TxFlags::Normal
        };
        self.device.send_wlan_frame(frame, tx_flags)
    }

    /// Sends a PS-Poll control frame with the given association identifier.
    pub fn send_ps_poll_frame(&mut self, aid: Aid) -> (res: Result<(), Error>)
        requires
            old(self).wf(),
        ensures
            final(self).wf(),
            station_core_unchanged(*old(self), *final(self)),
            final(self).seq_mgr == old(self).seq_mgr,
            match res {
                Ok(()) => !old(self).buf_provider.fail && !old(self).device.fail_wlan_tx
                    && wlan_pushed(
                    old(self).device,
                    final(self).device,
                    ps_poll_frame_bytes(aid, old(self).bssid, old(self).iface_mac),
                    TxFlags::Normal,
                ),
                Err(Error::NoResources) => old(self).buf_provider.fail
                    && *final(self) == *old(self),
                Err(Error::CouldNotDeliverWlanFrame) => !old(self).buf_provider.fail
                    && old(self).device.fail_wlan_tx && final(self).device == old(self).device,
                Err(_) => false,
            },
    {
        let mut w = match self.buf_provider.get_buffer(16) {
            Ok(w) => w,
            Err(e) => {
                return Err(e);
            },
        };
        match write_ps_poll_frame(&mut w, aid, self.bssid, self.iface_mac) {
            Ok(()) => {},
            Err(e) => {
                return Err(e);
            },
        }
        let frame = w.into_vec();
        self.device.send_wlan_frame(frame, TxFlags::Normal)
    }

    /// Forwards an EAPOL payload to the upper layer as an EAPOL indication.
    /// A payload above the fixed maximum is rejected and produces no
    /// message.
    pub fn send_eapol_indication(
        &mut self,
        src_addr: MacAddr,
        dst_addr: MacAddr,
        eapol_frame: &[u8],
    ) -> (res: Result<(), Error>)
        ensures
            station_core_unchanged(*old(self), *final(self)),
            final(self).seq_mgr == old(self).seq_mgr,
            final(self).wf() == old(self).wf(),
            match res {
                Ok(()) => eapol_frame@.len() <= MAX_EAPOL_FRAME_LEN
                    && !old(self).device.fail_sme
                    && sme_pushed_eapol_ind(
                    old(self).device,
                    final(self).device,
                    src_addr,
                    dst_addr,
                    eapol_frame@,
                ),
                Err(Error::EapolFrameTooLarge) => eapol_frame@.len() > MAX_EAPOL_FRAME_LEN
                    && *final(self) == *old(self),
                Err(Error::CouldNotDeliverSmeMessage) => eapol_frame@.len()
                    <= MAX_EAPOL_FRAME_LEN && old(self).device.fail_sme
                    && *final(self) == *old(self),
                Err(_) => false,
            },
    {
        if eapol_frame.len() > MAX_EAPOL_FRAME_LEN {
            return Err(Error::EapolFrameTooLarge);
        }
        let data = vstd::slice::slice_to_vec(eapol_frame);
        self.device.send_sme_message(SmeMessage::EapolInd { src_addr, dst_addr, data })
    }

    /// Sends an EAPOL payload over the air in a non-QoS data frame flagged
    /// for reliability, then reports the outcome upward in exactly one
    /// EAPOL confirmation, whatever the outcome was.
    pub fn send_eapol_frame(
        &mut self,
        src: MacAddr,
        dst: MacAddr,
        is_protected: bool,
        eapol_frame: &[u8],
    )
        requires
            old(self).wf(),
            eapol_frame@.len() + 34 <= usize::MAX,
        ensures
            final(self).wf(),
            station_core_unchanged(*old(self), *final(self)),
            ({
                let sent = !old(self).buf_provider.fail && !old(self).device.fail_wlan_tx;
                let conf = SmeMessage::EapolConf {
                    result_code: if sent {
                        EapolResultCode::Success
                    } else {
                        EapolResultCode::TransmissionFailure
                    },
                };
                let mid = Device {
                    wlan_queue: final(self).device.wlan_queue,
                    ..old(self).device
                };
                &&& (sent ==> wlan_pushed(
                    old(self).device,
                    mid,
                    data_frame_bytes(
                        old(self).bssid,
                        src,
                        dst,
                        next_non_qos_sn(*old(self)),
                        is_protected,
                        false,
                        0x888E,
                        eapol_frame@,
                    ),
                    TxFlags::FavorReliability,
                ))
                &&& (!sent ==> final(self).device.wlan_queue == old(self).device.wlan_queue)
                &&& (old(self).buf_provider.fail ==> final(self).seq_mgr == old(self).seq_mgr)
                &&& (!old(self).buf_provider.fail ==> seq_advanced_non_qos(
                    *old(self),
                    *final(self),
                ))
                &&& (!old(self).device.fail_sme ==> sme_pushed(mid, final(self).device, conf))
                &&& (old(self).device.fail_sme ==> final(self).device == mid)
            }),
    {
        let result = self.send_data_frame(src, dst, is_protected, false, 0x888E, eapol_frame);
        let result_code = match result {
            Ok(()) => EapolResultCode::Success,
            Err(_e) => EapolResultCode::TransmissionFailure,
        };
        let r = self.device.send_sme_message(SmeMessage::EapolConf { result_code });
        match r {
            Ok(()) => {},
            Err(_e) => {},
        }
    }
}

/// Exactly one Ethernet frame with these bytes was delivered to the
/// network stack.
pub open spec fn eth_pushed(pre: Device, post: Device, frame: Seq<u8>) -> bool {
    &&& device_unchanged_but_eth(pre, post)
    &&& post.eth_queue@.len() == pre.eth_queue@.len() + 1
    &&& post.eth_queue@ == pre.eth_queue@.push(post.eth_queue@.last())
    &&& post.eth_queue@.last()@ == frame
}

/// The extracted MSDUs that are forwarded upward as EAPOL indications:
/// EAPOL ethertype, payload within the fixed maximum.
pub open spec fn eapol_deliveries(ms: Seq<SpecMsdu>) -> Seq<SpecMsdu> {
    ms.filter(|m: SpecMsdu| m.protocol_id == 0x888E && m.body.len() <= MAX_EAPOL_FRAME_LEN)
}

/// The extracted MSDUs that are translated to Ethernet II and delivered to
/// the network stack: not EAPOL, and small enough for the Ethernet buffer.
pub open spec fn eth_deliveries(ms: Seq<SpecMsdu>) -> Seq<SpecMsdu> {
    ms.filter(|m: SpecMsdu| m.protocol_id != 0x888E && 14 + m.body.len() <= MAX_ETH_FRAME_LEN)
}

/// The message is an EAPOL indication carrying exactly this MSDU.
pub open spec fn is_eapol_ind_of(msg: SmeMessage, m: SpecMsdu) -> bool {
    msg matches SmeMessage::EapolInd { src_addr, dst_addr, data } && src_addr@ == m.src
        && dst_addr@ == m.dst && data@ == m.body
}

/// The upper-layer queue grew by exactly one EAPOL indication per delivered
/// MSDU, in order.
pub open spec fn sme_extended_with_eapol(
    pre: Seq<SmeMessage>,
    post: Seq<SmeMessage>,
    dels: Seq<SpecMsdu>,
) -> bool {
    &&& post.len() == pre.len() + dels.len()
    &&& post.subrange(0, pre.len() as int) == pre
    &&& (forall|k: int| 0 <= k < dels.len()
        ==> is_eapol_ind_of(#[trigger] post[pre.len() + k], dels[k]))
}

/// The Ethernet queue grew by exactly one translated frame per delivered
/// MSDU, in order.
pub open spec fn eth_extended_with(
    pre: Seq<Vec<u8>>,
    post: Seq<Vec<u8>>,
    dels: Seq<SpecMsdu>,
) -> bool {
    &&& post.len() == pre.len() + dels.len()
    &&& post.subrange(0, pre.len() as int) == pre
    &&& (forall|k: int| 0 <= k < dels.len()
        ==> (#[trigger] post[pre.len() + k])@ == eth_frame_bytes(
            dels[k].dst,
            dels[k].src,
            dels[k].protocol_id,
            dels[k].body,
        ))
}

impl Client {
    /// Delivers a single MSDU to the network stack as an Ethernet II frame.
    fn deliver_msdu(&mut self, msdu: Msdu) -> (res: Result<(), Error>)
        ensures
            station_core_unchanged(*old(self), *final(self)),
            final(self).seq_mgr == old(self).seq_mgr,
            match res {
                Ok(()) => !old(self).buf_provider.fail && !old(self).device.fail_eth_tx
                    && 14 + msdu.payload@.len() <= MAX_ETH_FRAME_LEN
                    && eth_pushed(
                    old(self).device,
                    final(self).device,
                    eth_frame_bytes(
                        msdu.dst_addr@,
                        msdu.src_addr@,
                        msdu.llc_hdr.protocol_id,
                        msdu.payload@,
                    ),
                ),
                Err(Error::NoResources) => old(self).buf_provider.fail
                    && *final(self) == *old(self),
                Err(Error::BufferTooSmall) => !old(self).buf_provider.fail
                    && 14 + msdu.payload@.len() > MAX_ETH_FRAME_LEN
                    && *final(self) == *old(self),
                Err(Error::CouldNotDeliverEthFrame) => !old(self).buf_provider.fail
                    && 14 + msdu.payload@.len() <= MAX_ETH_FRAME_LEN
                    && old(self).device.fail_eth_tx && *final(self) == *old(self),
                Err(_) => false,
            },
    {
        let mut w = match self.buf_provider.get_buffer(MAX_ETH_FRAME_LEN) {
            Ok(w) => w,
            Err(e) => {
                return Err(e);
            },
        };
        match write_eth_frame(
            &mut w,
            msdu.dst_addr,
            msdu.src_addr,
            msdu.llc_hdr.protocol_id,
            msdu.payload,
        ) {
            Ok(()) => {},
            Err(e) => {
                return Err(e);
            },
        }
        let frame = w.into_vec();
        let r = self.device.deliver_eth_frame(frame.as_slice());
        r
    }

    /// Admits one extracted MSDU: EAPOL goes upward whatever the controlled
    /// port says; other traffic is translated to Ethernet only while the
    /// port is open, and is dropped silently while it is closed.
    fn process_msdu(&mut self, msdu: Msdu, is_controlled_port_open: bool)
        ensures
            station_core_unchanged(*old(self), *final(self)),
            final(self).seq_mgr == old(self).seq_mgr,
            ({
                let pre = old(self).device;
                let post = final(self).device;
                if msdu.llc_hdr.protocol_id == 0x888E {
                    if msdu.payload@.len() <= MAX_EAPOL_FRAME_LEN && !pre.fail_sme {
                        sme_pushed_eapol_ind(pre, post, msdu.src_addr, msdu.dst_addr,
                            msdu.payload@)
                    } else {
                        post == pre
                    }
                } else {
                    if is_controlled_port_open && !old(self).buf_provider.fail
                        && !pre.fail_eth_tx && 14 + msdu.payload@.len() <= MAX_ETH_FRAME_LEN {
                        eth_pushed(pre, post, eth_frame_bytes(
                            msdu.dst_addr@,
                            msdu.src_addr@,
                            msdu.llc_hdr.protocol_id,
                            msdu.payload@,
                        ))
                    } else {
                        post == pre
                    }
                }
            }),
    {
        if msdu.llc_hdr.protocol_id == 0x888E {
            let r = self.send_eapol_indication(msdu.src_addr, msdu.dst_addr, msdu.payload);
            match r {
                Ok(()) => {},
                Err(_e) => {},
            }
        } else if is_controlled_port_open {
            let r = self.deliver_msdu(msdu);
            match r {
                Ok(()) => {},
                Err(_e) => {},
            }
        }
    }

    /// Extracts the MSDUs of a data frame and admits each one. A NULL data
    /// frame is answered with a keep-alive response, never gated by the
    /// controlled port; EAPOL payloads go upward whatever the port says;
    /// all other MSDUs become Ethernet frames only while the port is open,
    /// and are dropped silently, without any report, while it is closed.
    /// Anything malformed or truncated is dropped without effect.
    pub fn handle_data_frame(
        &mut self,
        bytes: &[u8],
        has_padding: bool,
        is_controlled_port_open: bool,
    )
        requires
            old(self).wf(),
        ensures
            final(self).wf(),
            station_core_unchanged(*old(self), *final(self)),
            ({
                let b = bytes@;
                let pre = old(self).device;
                let post = final(self).device;
                if !is_data_frame_bytes(b) || b.len() < data_body_offset(b, has_padding) {
                    *final(self) == *old(self)
                } else if is_null_data_frame(b) {
                    post.eth_queue == pre.eth_queue && post.sme_queue == pre.sme_queue
                    && device_unchanged_but_wlan(pre, post)
                    && (if pre.fail_wlan_tx || old(self).buf_provider.fail {
                        post.wlan_queue == pre.wlan_queue
                    } else {
                        wlan_pushed(pre, post, keep_alive_resp_frame_bytes(
                            old(self).bssid,
                            old(self).iface_mac,
                            next_non_qos_sn(*old(self)),
                        ), TxFlags::Normal)
                    })
                    && (if old(self).buf_provider.fail {
                        final(self).seq_mgr == old(self).seq_mgr
                    } else {
                        seq_advanced_non_qos(*old(self), *final(self))
                    })
                } else {
                    let ms = data_frame_msdus(b, has_padding);
                    let sme_dels = if pre.fail_sme { Seq::<SpecMsdu>::empty() } else {
                        eapol_deliveries(ms)
                    };
                    let eth_dels = if is_controlled_port_open && !old(self).buf_provider.fail
                        && !pre.fail_eth_tx {
                        eth_deliveries(ms)
                    } else {
                        Seq::<SpecMsdu>::empty()
                    };
                    &&& final(self).seq_mgr == old(self).seq_mgr
                    &&& post.wlan_queue == pre.wlan_queue
                    &&& post.fail_wlan_tx == pre.fail_wlan_tx
                    &&& post.fail_eth_tx == pre.fail_eth_tx
                    &&& post.fail_sme == pre.fail_sme
                    &&& sme_extended_with_eapol(pre.sme_queue@, post.sme_queue@, sme_dels)
                    &&& eth_extended_with(pre.eth_queue@, post.eth_queue@, eth_dels)
                }
            }),
    {
        let parsed = match parse_data_frame(bytes, has_padding) {
            Some(p) => p,
            None => {
                return ;
            },
        };
        if read_bit_u16(parsed.fixed.frame_ctrl.0, 6) {
            let r = self.send_keep_alive_resp_frame();
            match r {
                Ok(()) => {},
                Err(_e) => {},
            }
            return ;
        }
        let ghost pre = *self;
        let ghost ms = data_frame_msdus(bytes@, has_padding);
        let is_amsdu = match parsed.qos_ctrl {
            Some(q) => read_bit_u16(q.0, 7),
            None => false,
        };
        if is_amsdu {
            proof {
                assert(ms == amsdu_subframes(parsed.body@));
            }
            let mut iter = AmsduIter::new(parsed.body);
            let ghost mut processed = Seq::<SpecMsdu>::empty();
            proof {
                reveal(Seq::filter);
                assert(processed + amsdu_subframes(iter.remaining_spec())
                    =~= amsdu_subframes(parsed.body@));
                assert(pre.device.sme_queue@.subrange(0, pre.device.sme_queue@.len() as int)
                    =~= pre.device.sme_queue@);
                assert(pre.device.eth_queue@.subrange(0, pre.device.eth_queue@.len() as int)
                    =~= pre.device.eth_queue@);
            }
            loop
                invariant
                    self.wf(),
                    iter.wf(),
                    station_core_unchanged(pre, *self),
                    self.seq_mgr == pre.seq_mgr,
                    self.device.wlan_queue == pre.device.wlan_queue,
                    self.device.fail_wlan_tx == pre.device.fail_wlan_tx,
                    self.device.fail_eth_tx == pre.device.fail_eth_tx,
                    self.device.fail_sme == pre.device.fail_sme,
                    ms == processed + amsdu_subframes(iter.remaining_spec()),
                    sme_extended_with_eapol(
                        pre.device.sme_queue@,
                        self.device.sme_queue@,
                        if pre.device.fail_sme { Seq::<SpecMsdu>::empty() } else {
                            eapol_deliveries(processed)
                        },
                    ),
                    eth_extended_with(
                        pre.device.eth_queue@,
                        self.device.eth_queue@,
                        if is_controlled_port_open && !pre.buf_provider.fail
                            && !pre.device.fail_eth_tx {
                            eth_deliveries(processed)
                        } else {
                            Seq::<SpecMsdu>::empty()
                        },
                    ),
                ensures
                    ms == processed,
                    sme_extended_with_eapol(
                        pre.device.sme_queue@,
                        self.device.sme_queue@,
                        if pre.device.fail_sme { Seq::<SpecMsdu>::empty() } else {
                            eapol_deliveries(processed)
                        },
                    ),
                    eth_extended_with(
                        pre.device.eth_queue@,
                        self.device.eth_queue@,
                        if is_controlled_port_open && !pre.buf_provider.fail
                            && !pre.device.fail_eth_tx {
                            eth_deliveries(processed)
                        } else {
                            Seq::<SpecMsdu>::empty()
                        },
                    ),
                    station_core_unchanged(pre, *self),
                    self.seq_mgr == pre.seq_mgr,
                    self.device.wlan_queue == pre.device.wlan_queue,
                    self.device.fail_wlan_tx == pre.device.fail_wlan_tx,
                    self.device.fail_eth_tx == pre.device.fail_eth_tx,
                    self.device.fail_sme == pre.device.fail_sme,
                    self.wf(),
                decreases amsdu_subframes(iter.remaining_spec()).len(),
            {
                let next = iter.next();
                match next {
                    Some(m) => {
                        let ghost cur = ms[processed.len() as int];
                        let ghost dev0 = self.device;
                        proof {
                            assert(m.matches(cur));
                        }
                        self.process_msdu(m, is_controlled_port_open);
                        proof {
                            lemma_deliveries_push(processed, cur);
                            let sme_dels = if pre.device.fail_sme {
                                Seq::<SpecMsdu>::empty()
                            } else {
                                eapol_deliveries(processed)
                            };
                            let eth_dels = if is_controlled_port_open
                                && !pre.buf_provider.fail && !pre.device.fail_eth_tx {
                                eth_deliveries(processed)
                            } else {
                                Seq::<SpecMsdu>::empty()
                            };
                            if cur.protocol_id == 0x888E {
                                if !pre.device.fail_sme && cur.body.len()
                                    <= MAX_EAPOL_FRAME_LEN {
                                    lemma_sme_extend_step(
                                        pre.device.sme_queue@,
                                        dev0.sme_queue@,
                                        self.device.sme_queue@,
                                        sme_dels,
                                        cur,
                                        self.device.sme_queue@.last(),
                                    );
                                }
                            } else {
                                if is_controlled_port_open && !pre.buf_provider.fail
                                    && !pre.device.fail_eth_tx && 14 + cur.body.len()
                                    <= MAX_ETH_FRAME_LEN {
                                    lemma_eth_extend_step(
                                        pre.device.eth_queue@,
                                        dev0.eth_queue@,
                                        self.device.eth_queue@,
                                        eth_dels,
                                        cur,
                                        self.device.eth_queue@.last(),
                                    );
                                }
                            }
                            processed = processed.push(cur);
                            assert(ms =~= processed + amsdu_subframes(
                                iter.remaining_spec(),
                            ));
                        }
                    },
                    None => {
                        proof {
                            assert(ms =~= processed);
                        }
                        break ;
                    },
                }
            }
        } else {
            proof {
                assert(ms == single_llc_msdu(
                    parsed.dst_addr@,
                    parsed.src_addr@,
                    parsed.body@,
                ));
            }
            let single = parse_single_llc(parsed.dst_addr, parsed.src_addr, parsed.body);
            proof {
                lemma_deliveries_empty();
                assert(pre.device.sme_queue@.subrange(
                    0,
                    pre.device.sme_queue@.len() as int,
                ) =~= pre.device.sme_queue@);
                assert(pre.device.eth_queue@.subrange(
                    0,
                    pre.device.eth_queue@.len() as int,
                ) =~= pre.device.eth_queue@);
                assert(sme_extended_with_eapol(
                    pre.device.sme_queue@,
                    pre.device.sme_queue@,
                    Seq::<SpecMsdu>::empty(),
                ));
                assert(eth_extended_with(
                    pre.device.eth_queue@,
                    pre.device.eth_queue@,
                    Seq::<SpecMsdu>::empty(),
                ));
            }
            match single {
                Some(m) => {
                    let ghost cur = ms[0];
                    let ghost dev0 = self.device;
                    proof {
                        assert(m.matches(cur));
                    }
                    self.process_msdu(m, is_controlled_port_open);
                    proof {
                        lemma_deliveries_push(Seq::<SpecMsdu>::empty(), cur);
                        assert(ms =~= Seq::<SpecMsdu>::empty().push(cur));
                        if cur.protocol_id == 0x888E {
                            if !pre.device.fail_sme && cur.body.len() <= MAX_EAPOL_FRAME_LEN {
                                lemma_sme_extend_step(
                                    pre.device.sme_queue@,
                                    dev0.sme_queue@,
                                    self.device.sme_queue@,
                                    Seq::<SpecMsdu>::empty(),
                                    cur,
                                    self.device.sme_queue@.last(),
                                );
                            }
                        } else {
                            if is_controlled_port_open && !pre.buf_provider.fail
                                && !pre.device.fail_eth_tx && 14 + cur.body.len()
                                <= MAX_ETH_FRAME_LEN {
                                lemma_eth_extend_step(
                                    pre.device.eth_queue@,
                                    dev0.eth_queue@,
                                    self.device.eth_queue@,
                                    Seq::<SpecMsdu>::empty(),
                                    cur,
                                    self.device.eth_queue@.last(),
                                );
                            }
                        }
                    }
                },
                None => {},
            }
        }
    }
}

/// Filtering the extracted MSDUs for delivery treats an appended MSDU one
/// at a time: it joins each delivery list exactly when it meets that list's
/// condition.
pub proof fn lemma_deliveries_push(s: Seq<SpecMsdu>, m: SpecMsdu)
    ensures
        eapol_deliveries(s.push(m)) == if m.protocol_id == 0x888E && m.body.len()
            <= MAX_EAPOL_FRAME_LEN {
            eapol_deliveries(s).push(m)
        } else {
            eapol_deliveries(s)
        },
        eth_deliveries(s.push(m)) == if m.protocol_id != 0x888E && 14 + m.body.len()
            <= MAX_ETH_FRAME_LEN {
            eth_deliveries(s).push(m)
        } else {
            eth_deliveries(s)
        },
{
    reveal(Seq::filter);
    assert(s.push(m).drop_last() =~= s);
    assert(s.push(m).last() == m);
}


/// Appending one EAPOL indication extends the delivered list by its MSDU.
pub proof fn lemma_sme_extend_step(
    pre_q: Seq<SmeMessage>,
    old_q: Seq<SmeMessage>,
    new_q: Seq<SmeMessage>,
    dels: Seq<SpecMsdu>,
    m: SpecMsdu,
    msg: SmeMessage,
)
    requires
        sme_extended_with_eapol(pre_q, old_q, dels),
        new_q == old_q.push(msg),
        is_eapol_ind_of(msg, m),
    ensures
        sme_extended_with_eapol(pre_q, new_q, dels.push(m)),
{
    assert(new_q.subrange(0, pre_q.len() as int) =~= old_q.subrange(0, pre_q.len() as int));
    assert forall|k: int| 0 <= k < dels.push(m).len() implies is_eapol_ind_of(
        #[trigger] new_q[pre_q.len() + k],
        dels.push(m)[k],
    ) by {
        if k < dels.len() {
            assert(new_q[pre_q.len() + k] == old_q[pre_q.len() + k]);
            assert(dels.push(m)[k] == dels[k]);
        } else {
            assert(new_q[pre_q.len() + k] == msg);
            assert(dels.push(m)[k] == m);
        }
    }
}

/// Appending one translated frame extends the delivered list by its MSDU.
pub proof fn lemma_eth_extend_step(
    pre_q: Seq<Vec<u8>>,
    old_q: Seq<Vec<u8>>,
    new_q: Seq<Vec<u8>>,
    dels: Seq<SpecMsdu>,
    m: SpecMsdu,
    v: Vec<u8>,
)
    requires
        eth_extended_with(pre_q, old_q, dels),
        new_q == old_q.push(v),
        v@ == eth_frame_bytes(m.dst, m.src, m.protocol_id, m.body),
    ensures
        eth_extended_with(pre_q, new_q, dels.push(m)),
{
    assert(new_q.subrange(0, pre_q.len() as int) =~= old_q.subrange(0, pre_q.len() as int));
    assert forall|k: int| 0 <= k < dels.push(m).len() implies (#[trigger] new_q[pre_q.len()
        + k])@ == eth_frame_bytes(
        dels.push(m)[k].dst,
        dels.push(m)[k].src,
        dels.push(m)[k].protocol_id,
        dels.push(m)[k].body,
    ) by {
        if k < dels.len() {
            assert(new_q[pre_q.len() + k] == old_q[pre_q.len() + k]);
            assert(dels.push(m)[k] == dels[k]);
        } else {
            assert(new_q[pre_q.len() + k] == v);
            assert(dels.push(m)[k] == m);
        }
    }
}

/// No MSDU, no delivery.
pub proof fn lemma_deliveries_empty()
    ensures
        eapol_deliveries(Seq::<SpecMsdu>::empty()) == Seq::<SpecMsdu>::empty(),
        eth_deliveries(Seq::<SpecMsdu>::empty()) == Seq::<SpecMsdu>::empty(),
{
    reveal(Seq::filter);
}

/// Compares two MAC addresses byte-wise.
pub fn mac_addr_eq(a: &MacAddr, b: &MacAddr) -> (r: bool)
    ensures
        r == (a@ == b@),
{
    let r = a[0] == b[0] && a[1] == b[1] && a[2] == b[2] && a[3] == b[3] && a[4] == b[4]
        && a[5] == b[5];
    proof {
        if r {
            assert(a@ =~= b@);
        }
    }
    r
}

/// Whether the bytes are a management frame from the joined BSS: type 0,
/// a whole header, and the BSSID in the third address.
pub open spec fn is_mgmt_to_bss(b: Seq<u8>, bssid: Bssid) -> bool {
    b.len() >= 24 && get_bits16(u16_from_le(b[0], b[1]), 2, 0x3) == 0 && b.subrange(16, 22)
        == bssid.0@
}

/// The management subtype carried by the frame control field.
pub open spec fn mgmt_subtype_of(b: Seq<u8>) -> u16 {
    get_bits16(u16_from_le(b[0], b[1]), 4, 0xf)
}

/// Whether an authentication response reports Open System success.
pub open spec fn auth_resp_successful(b: Seq<u8>) -> bool {
    u16_from_le(b[24], b[25]) == 0 && u16_from_le(b[28], b[29]) == 0
}

/// The reason code right after the management header.
pub open spec fn frame_reason_code(b: Seq<u8>) -> u16 {
    u16_from_le(b[24], b[25])
}

/// Whether an association response reports success.
pub open spec fn assoc_resp_successful(b: Seq<u8>) -> bool {
    u16_from_le(b[26], b[27]) == 0
}

impl Client {
    /// Reports the outcome of the authentication attempt upward; a refusal
    /// of the channel itself is not fatal and leaves no trace.
    fn send_authenticate_conf(&mut self, result_code: AuthenticateResultCode)
        ensures
            station_core_unchanged(*old(self), *final(self)),
            final(self).seq_mgr == old(self).seq_mgr,
            if old(self).device.fail_sme {
                final(self).device == old(self).device
            } else {
                sme_pushed(old(self).device, final(self).device, SmeMessage::AuthenticateConf {
                    peer_sta_address: old(self).bssid.0,
                    result_code,
                })
            },
    {
        let r = self.device.send_sme_message(SmeMessage::AuthenticateConf {
            peer_sta_address: self.bssid.0,
            result_code,
        });
        match r {
            Ok(()) => {},
            Err(_e) => {},
        }
    }

    /// Tells the upper layer that the BSS deauthenticated the station.
    fn send_deauthenticate_ind(&mut self, reason_code: ReasonCode)
        ensures
            station_core_unchanged(*old(self), *final(self)),
            final(self).seq_mgr == old(self).seq_mgr,
            if old(self).device.fail_sme {
                final(self).device == old(self).device
            } else {
                sme_pushed(old(self).device, final(self).device, SmeMessage::DeauthenticateInd {
                    peer_sta_address: old(self).bssid.0,
                    reason_code: reason_code.0,
                })
            },
    {
        let r = self.device.send_sme_message(SmeMessage::DeauthenticateInd {
            peer_sta_address: self.bssid.0,
            reason_code: reason_code.0,
        });
        match r {
            Ok(()) => {},
            Err(_e) => {},
        }
    }

    /// Starts Open System authentication: sends the authentication frame
    /// and schedules the authentication timeout, measured in beacon
    /// intervals. Ignored unless the station is deauthenticated. If the
    /// frame cannot be sent, the failure is reported upward at once and no
    /// wait begins.
    pub fn authenticate(&mut self, timeout_bcn_count: u8)
        requires
            old(self).wf(),
            old(self).timer.next_id_spec() < EventId::MAX,
        ensures
            final(self).wf(),
            final(self).bssid == old(self).bssid,
            final(self).iface_mac == old(self).iface_mac,
            final(self).buf_provider == old(self).buf_provider,
            match old(self).state {
                States::Deauthenticated => {
                    let sent = !old(self).buf_provider.fail && !old(self).device.fail_wlan_tx;
                    &&& (old(self).buf_provider.fail ==> final(self).seq_mgr == old(
                        self,
                    ).seq_mgr)
                    &&& (!old(self).buf_provider.fail ==> seq_advanced_non_qos(
                        *old(self),
                        *final(self),
                    ))
                    &&& (if sent {
                        &&& wlan_pushed(
                            old(self).device,
                            final(self).device,
                            open_auth_frame_bytes(
                                old(self).bssid,
                                old(self).iface_mac,
                                next_non_qos_sn(*old(self)),
                            ),
                            TxFlags::Normal,
                        )
                        &&& final(self).state == (States::Authenticating {
                            timeout: old(self).timer.next_id_spec(),
                        })
                        &&& final(self).timer.events_spec() == old(self).timer.events_spec()
                            .push((
                            old(self).timer.next_id_spec(),
                            timeout_bcn_count as i64,
                            TimedEvent::Authenticating,
                        ))
                        &&& final(self).timer.next_id_spec() == old(self).timer.next_id_spec()
                            + 1
                    } else {
                        &&& final(self).state == States::Deauthenticated
                        &&& final(self).timer == old(self).timer
                        &&& final(self).device.wlan_queue == old(self).device.wlan_queue
                        &&& final(self).device.eth_queue == old(self).device.eth_queue
                        &&& (if old(self).device.fail_sme {
                            final(self).device.sme_queue == old(self).device.sme_queue
                        } else {
                            final(self).device.sme_queue@ == old(self).device.sme_queue@.push(
                                (SmeMessage::AuthenticateConf {
                                    peer_sta_address: old(self).bssid.0,
                                    result_code: AuthenticateResultCode::Refused,
                                }),
                            )
                        })
                    })
                },
                _ => *final(self) == *old(self),
            },
    {
        match self.state {
            States::Deauthenticated => {
                let r = self.send_open_auth_frame();
                match r {
                    Ok(()) => {
                        let id = self.timer.schedule(
                            timeout_bcn_count as i64,
                            TimedEvent::Authenticating,
                        );
                        self.state = States::Authenticating { timeout: id };
                    },
                    Err(_e) => {
                        self.send_authenticate_conf(AuthenticateResultCode::Refused);
                    },
                }
            },
            _ => {},
        }
    }

    /// Starts association: sends the association request built from the
    /// supplied capability information and elements, and schedules the
    /// association timeout, measured in beacon intervals. Ignored unless
    /// the station is authenticated. A failure to send is reported to the
    /// caller and no wait begins.
    pub fn associate(
        &mut self,
        cap_info: u16,
        ssid: &[u8],
        rates: &[u8],
        rsne: &[u8],
        ht_cap: &[u8],
        vht_cap: &[u8],
        timeout_bcn_count: u8,
    ) -> (res: Result<(), Error>)
        requires
            old(self).wf(),
            old(self).timer.next_id_spec() < EventId::MAX,
            ssid@.len() <= 255,
            1 <= rates@.len() <= 263,
            rsne@.len() == 0 || 4 <= rsne@.len() <= 257,
            ht_cap@.len() == 0 || ht_cap@.len() == 26,
            vht_cap@.len() == 0 || vht_cap@.len() == 12,
        ensures
            final(self).wf(),
            final(self).bssid == old(self).bssid,
            final(self).iface_mac == old(self).iface_mac,
            final(self).buf_provider == old(self).buf_provider,
            match old(self).state {
                States::Authenticated => {
                    let sent = !old(self).buf_provider.fail && !old(self).device.fail_wlan_tx;
                    &&& (old(self).buf_provider.fail ==> final(self).seq_mgr == old(
                        self,
                    ).seq_mgr)
                    &&& (!old(self).buf_provider.fail ==> seq_advanced_non_qos(
                        *old(self),
                        *final(self),
                    ))
                    &&& final(self).device.eth_queue == old(self).device.eth_queue
                    &&& final(self).device.sme_queue == old(self).device.sme_queue
                    &&& (if sent {
                        &&& res is Ok
                        &&& wlan_pushed(
                            old(self).device,
                            final(self).device,
                            assoc_req_frame_bytes(
                                old(self).bssid,
                                old(self).iface_mac,
                                next_non_qos_sn(*old(self)),
                                cap_info,
                                ssid@,
                                rates@,
                                rsne@,
                                ht_cap@,
                                vht_cap@,
                            ),
                            TxFlags::Normal,
                        )
                        &&& final(self).state == (States::Associating {
                            timeout: old(self).timer.next_id_spec(),
                        })
                        &&& final(self).timer.events_spec() == old(self).timer.events_spec()
                            .push((
                            old(self).timer.next_id_spec(),
                            timeout_bcn_count as i64,
                            TimedEvent::Associating,
                        ))
                        &&& final(self).timer.next_id_spec() == old(self).timer.next_id_spec()
                            + 1
                    } else {
                        &&& res is Err
                        &&& final(self).state == States::Authenticated
                        &&& final(self).timer == old(self).timer
                        &&& final(self).device.wlan_queue == old(self).device.wlan_queue
                    })
                },
                _ => *final(self) == *old(self) && res is Ok,
            },
    {
        match self.state {
            States::Authenticated => {
                let r = self.send_assoc_req_frame(cap_info, ssid, rates, rsne, ht_cap, vht_cap);
                match r {
                    Ok(()) => {
                        let id = self.timer.schedule(
                            timeout_bcn_count as i64,
                            TimedEvent::Associating,
                        );
                        self.state = States::Associating { timeout: id };
                        Ok(())
                    },
                    Err(e) => Err(e),
                }
            },
            _ => Ok(()),
        }
    }

    /// Deauthenticates from the BSS: sends a deauthentication frame with
    /// the given reason code and returns to the initial state. Ignored
    /// when the station already is deauthenticated.
    pub fn deauthenticate(&mut self, reason_code: ReasonCode)
        requires
            old(self).wf(),
        ensures
            final(self).wf(),
            final(self).bssid == old(self).bssid,
            final(self).iface_mac == old(self).iface_mac,
            final(self).buf_provider == old(self).buf_provider,
            final(self).timer == old(self).timer,
            final(self).device.eth_queue == old(self).device.eth_queue,
            final(self).device.sme_queue == old(self).device.sme_queue,
            match old(self).state {
                States::Deauthenticated => *final(self) == *old(self),
                _ => {
                    &&& final(self).state == States::Deauthenticated
                    &&& (old(self).buf_provider.fail ==> final(self).seq_mgr == old(
                        self,
                    ).seq_mgr)
                    &&& (!old(self).buf_provider.fail ==> seq_advanced_non_qos(
                        *old(self),
                        *final(self),
                    ))
                    &&& (if !old(self).buf_provider.fail && !old(self).device.fail_wlan_tx {
                        wlan_pushed(
                            old(self).device,
                            final(self).device,
                            deauth_frame_bytes(
                                old(self).bssid,
                                old(self).iface_mac,
                                next_non_qos_sn(*old(self)),
                                reason_code,
                            ),
                            TxFlags::Normal,
                        )
                    } else {
                        final(self).device == old(self).device
                    })
                },
            },
    {
        match self.state {
            States::Deauthenticated => {},
            _ => {
                let r = self.send_deauth_frame(reason_code);
                match r {
                    Ok(()) => {},
                    Err(_e) => {},
                }
                self.state = States::Deauthenticated;
            },
        }
    }

    /// Called when a previously scheduled timeout fired. An identifier
    /// whose wait was superseded by a state transition is silently
    /// ignored: the state machine, not the timer, judges relevance.
    pub fn handle_timed_event(&mut self, event_id: EventId)
        ensures
            final(self).bssid == old(self).bssid,
            final(self).iface_mac == old(self).iface_mac,
            final(self).buf_provider == old(self).buf_provider,
            final(self).timer == old(self).timer,
            final(self).seq_mgr == old(self).seq_mgr,
            final(self).wf() == old(self).wf(),
            final(self).device.wlan_queue == old(self).device.wlan_queue,
            final(self).device.eth_queue == old(self).device.eth_queue,
            match old(self).state {
                States::Authenticating { timeout } => {
                    if timeout == event_id {
                        &&& final(self).state == States::Deauthenticated
                        &&& (if old(self).device.fail_sme {
                            final(self).device == old(self).device
                        } else {
                            sme_pushed(
                                old(self).device,
                                final(self).device,
                                SmeMessage::AuthenticateConf {
                                    peer_sta_address: old(self).bssid.0,
                                    result_code: AuthenticateResultCode::AuthFailureTimeout,
                                },
                            )
                        })
                    } else {
                        *final(self) == *old(self)
                    }
                },
                States::Associating { timeout } => {
                    if timeout == event_id {
                        final(self).state == States::Authenticated && final(self).device == old(
                            self,
                        ).device
                    } else {
                        *final(self) == *old(self)
                    }
                },
                _ => *final(self) == *old(self),
            },
    {
        match self.state {
            States::Authenticating { timeout } => {
                if timeout == event_id {
                    self.state = States::Deauthenticated;
                    self.send_authenticate_conf(AuthenticateResultCode::AuthFailureTimeout);
                }
            },
            States::Associating { timeout } => {
                if timeout == event_id {
                    self.state = States::Authenticated;
                }
            },
            _ => {},
        }
    }

    /// Called when an arbitrary frame arrives over the air. Only whole
    /// management frames whose BSSID matches the joined BSS are acted on:
    /// an authentication response settles an authentication in progress,
    /// an association response settles an association in progress, a
    /// deauthentication ends any state, and a disassociation ends an
    /// association. Everything else, truncated bodies included, is ignored
    /// without a transition.
    pub fn on_mac_frame(&mut self, bytes: &[u8], body_aligned: bool)
        requires
            old(self).wf(),
        ensures
            final(self).wf(),
            final(self).bssid == old(self).bssid,
            final(self).iface_mac == old(self).iface_mac,
            final(self).buf_provider == old(self).buf_provider,
            final(self).seq_mgr == old(self).seq_mgr,
            final(self).device.wlan_queue == old(self).device.wlan_queue,
            final(self).device.eth_queue == old(self).device.eth_queue,
            final(self).timer.next_id_spec() == old(self).timer.next_id_spec(),
            ({
                let b = bytes@;
                if !is_mgmt_to_bss(b, old(self).bssid) {
                    *final(self) == *old(self)
                } else if mgmt_subtype_of(b) == 11 {
                    match old(self).state {
                        States::Authenticating { timeout } => {
                            if b.len() >= 30 {
                                &&& final(self).timer.events_spec() == old(
                                    self,
                                ).timer.events_spec().filter(
                                    |t: (EventId, i64, TimedEvent)| t.0 != timeout,
                                )
                                &&& (if auth_resp_successful(b) {
                                    final(self).state == States::Authenticated
                                } else {
                                    final(self).state == States::Deauthenticated
                                })
                                &&& (if old(self).device.fail_sme {
                                    final(self).device == old(self).device
                                } else {
                                    sme_pushed(
                                        old(self).device,
                                        final(self).device,
                                        SmeMessage::AuthenticateConf {
                                            peer_sta_address: old(self).bssid.0,
                                            result_code: if auth_resp_successful(b) {
                                                AuthenticateResultCode::Success
                                            } else {
                                                AuthenticateResultCode::Refused
                                            },
                                        },
                                    )
                                })
                            } else {
                                *final(self) == *old(self)
                            }
                        },
                        _ => *final(self) == *old(self),
                    }
                } else if mgmt_subtype_of(b) == 12 {
                    if b.len() >= 26 {
                        &&& final(self).state == States::Deauthenticated
                        &&& final(self).timer == old(self).timer
                        &&& (if old(self).device.fail_sme {
                            final(self).device == old(self).device
                        } else {
                            sme_pushed(
                                old(self).device,
                                final(self).device,
                                SmeMessage::DeauthenticateInd {
                                    peer_sta_address: old(self).bssid.0,
                                    reason_code: frame_reason_code(b),
                                },
                            )
                        })
                    } else {
                        *final(self) == *old(self)
                    }
                } else if mgmt_subtype_of(b) == 10 {
                    if b.len() >= 26 && old(self).state == States::Associated {
                        &&& final(self).state == States::Deauthenticated
                        &&& final(self).timer == old(self).timer
                        &&& (if old(self).device.fail_sme {
                            final(self).device == old(self).device
                        } else {
                            sme_pushed(
                                old(self).device,
                                final(self).device,
                                SmeMessage::DeauthenticateInd {
                                    peer_sta_address: old(self).bssid.0,
                                    reason_code: frame_reason_code(b),
                                },
                            )
                        })
                    } else {
                        *final(self) == *old(self)
                    }
                } else if mgmt_subtype_of(b) == 1 {
                    match old(self).state {
                        States::Associating { timeout } => {
                            if b.len() >= 30 {
                                &&& final(self).timer.events_spec() == old(
                                    self,
                                ).timer.events_spec().filter(
                                    |t: (EventId, i64, TimedEvent)| t.0 != timeout,
                                )
                                &&& (if assoc_resp_successful(b) {
                                    final(self).state == States::Associated
                                } else {
                                    final(self).state == States::Authenticated
                                })
                                &&& final(self).device == old(self).device
                            } else {
                                *final(self) == *old(self)
                            }
                        },
                        _ => *final(self) == *old(self),
                    }
                } else {
                    *final(self) == *old(self)
                }
            }),
    {
        let mut r = BufferReader::new(bytes);
        let hdr = match MgmtHdr::read_from(&mut r) {
            Some(h) => h,
            None => {
                return ;
            },
        };
        proof {
            assert(bytes@.subrange(0, bytes@.len() as int) =~= bytes@);
            assert(hdr.addr3@ == bytes@.subrange(16, 22));
        }
        if hdr.frame_ctrl.frame_type() != 0 {
            return ;
        }
        if !mac_addr_eq(&hdr.addr3, &self.bssid.0) {
            return ;
        }
        let subtype = hdr.frame_ctrl.frame_subtype();
        if subtype == 11 {
            match self.state {
                States::Authenticating { timeout } => {
                    let auth = match AuthHdr::read_from(&mut r) {
                        Some(a) => a,
                        None => {
                            return ;
                        },
                    };
                    proof {
                        assert(bytes@.subrange(24, bytes@.len() as int).subrange(0, 6)
                            =~= bytes@.subrange(24, 30));
                        assert(AuthHdr::decodes_from(auth, bytes@.subrange(24, 30)));
                    }
                    self.timer.cancel(timeout);
                    if auth.auth_alg_num.0 == 0 && auth.status_code.0 == 0 {
                        self.state = States::Authenticated;
                        self.send_authenticate_conf(AuthenticateResultCode::Success);
                    } else {
                        self.state = States::Deauthenticated;
                        self.send_authenticate_conf(AuthenticateResultCode::Refused);
                    }
                },
                _ => {},
            }
        } else if subtype == 12 {
            let deauth = match DeauthHdr::read_from(&mut r) {
                Some(d) => d,
                None => {
                    return ;
                },
            };
            proof {
                assert(bytes@.subrange(24, bytes@.len() as int).subrange(0, 2)
                    =~= bytes@.subrange(24, 26));
                assert(DeauthHdr::decodes_from(deauth, bytes@.subrange(24, 26)));
            }
            self.state = States::Deauthenticated;
            self.send_deauthenticate_ind(deauth.reason_code);
        } else if subtype == 10 {
            match self.state {
                States::Associated => {
                    let disassoc = match DeauthHdr::read_from(&mut r) {
                        Some(d) => d,
                        None => {
                            return ;
                        },
                    };
                    proof {
                        assert(bytes@.subrange(24, bytes@.len() as int).subrange(0, 2)
                            =~= bytes@.subrange(24, 26));
                        assert(DeauthHdr::decodes_from(disassoc, bytes@.subrange(24, 26)));
                    }
                    self.state = States::Deauthenticated;
                    self.send_deauthenticate_ind(disassoc.reason_code);
                },
                _ => {},
            }
        } else if subtype == 1 {
            match self.state {
                States::Associating { timeout } => {
                    let resp = match AssocRespHdr::read_from(&mut r) {
                        Some(a) => a,
                        None => {
                            return ;
                        },
                    };
                    proof {
                        assert(bytes@.subrange(24, bytes@.len() as int).subrange(0, 6)
                            =~= bytes@.subrange(24, 30));
                        assert(AssocRespHdr::decodes_from(resp, bytes@.subrange(24, 30)));
                    }
                    self.timer.cancel(timeout);
                    if resp.status_code.0 == 0 {
                        self.state = States::Associated;
                    } else {
                        self.state = States::Authenticated;
                    }
                },
                _ => {},
            }
        }
    }
}

} // verus!
