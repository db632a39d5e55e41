//! The buffer/transmit gateway and the channel to the upper layer.
//!
//! The core hands every completed frame, every reconstructed Ethernet frame
//! and every indication or confirmation to its environment through this
//! gateway. Here the hand-offs are recorded in order, one queue per
//! direction: the surrounding runtime drains the queues and performs the
//! actual transmissions. Each operation can be made to fail, as the real
//! lower layer can; a failure leaves every queue untouched and is reported
//! to the caller of the triggering operation.

use vstd::prelude::*;
use vstd::slice::slice_to_vec;
use crate::buffer_writer::BufferWriter;
use crate::error::Error;
use crate::mac::MacAddr;

verus! {

/// A delivery-priority hint handed to the lower layer with each frame.
#[derive(Clone, Copy, PartialEq, Eq, Structural, Debug)]
pub enum TxFlags {
    Normal,
    /// Favor reliability over throughput; used for EAPOL frames.
    FavorReliability,
}

/// The result of an authentication attempt, reported upward.
#[derive(Clone, Copy, PartialEq, Eq, Structural, Debug)]
pub enum AuthenticateResultCode {
    Success,
    /// The peer refused the authentication.
    Refused,
    /// No response arrived before the authentication timeout fired.
    AuthFailureTimeout,
}

/// The result of an EAPOL transmission, reported upward.
#[derive(Clone, Copy, PartialEq, Eq, Structural, Debug)]
pub enum EapolResultCode {
    Success,
    TransmissionFailure,
}

/// An indication or confirmation for the upper layer. Only Open System
/// authentication is supported, so the authenticate confirmation carries no
/// algorithm field.
#[derive(Clone, PartialEq, Eq, Debug)]
pub enum SmeMessage {
    AuthenticateConf { peer_sta_address: MacAddr, result_code: AuthenticateResultCode },
    DeauthenticateInd { peer_sta_address: MacAddr, reason_code: u16 },
    EapolInd { src_addr: MacAddr, dst_addr: MacAddr, data: Vec<u8> },
    EapolConf { result_code: EapolResultCode },
}

pub struct Device {
    /// Frames handed to the lower layer for transmission, with their flags.
    pub wlan_queue: Vec<(Vec<u8>, TxFlags)>,
    /// Ethernet frames delivered to the local network stack.
    pub eth_queue: Vec<Vec<u8>>,
    /// Messages sent to the upper layer.
    pub sme_queue: Vec<SmeMessage>,
    /// Makes every wlan transmission fail.
    pub fail_wlan_tx: bool,
    /// Makes every Ethernet delivery fail.
    pub fail_eth_tx: bool,
    /// Makes every upper-layer send fail.
    pub fail_sme: bool,
}

impl Device {
    /// A gateway with empty queues that accepts everything.
    pub fn new() -> (r: Self)
        ensures
            r.wlan_queue@ == Seq::<(Vec<u8>, TxFlags)>::empty(),
            r.eth_queue@ == Seq::<Vec<u8>>::empty(),
            r.sme_queue@ == Seq::<SmeMessage>::empty(),
            !r.fail_wlan_tx,
            !r.fail_eth_tx,
            !r.fail_sme,
    {
        let r = Device {
            wlan_queue: Vec::new(),
            eth_queue: Vec::new(),
            sme_queue: Vec::new(),
            fail_wlan_tx: false,
            fail_eth_tx: false,
            fail_sme: false,
        };
        assert(r.wlan_queue@ =~= Seq::<(Vec<u8>, TxFlags)>::empty());
        assert(r.eth_queue@ =~= Seq::<Vec<u8>>::empty());
        assert(r.sme_queue@ =~= Seq::<SmeMessage>::empty());
        r
    }

    /// Hands a completed frame to the lower layer.
    pub fn send_wlan_frame(&mut self, frame: Vec<u8>, flags: TxFlags) -> (res: Result<(), Error>)
        ensures
            match res {
                Ok(()) => !old(self).fail_wlan_tx
                    && *final(self) == (Device {
                        wlan_queue: final(self).wlan_queue,
                        ..*old(self)
                    })
                    && final(self).wlan_queue@ == old(self).wlan_queue@.push((frame, flags)),
                Err(e) => old(self).fail_wlan_tx && e == Error::CouldNotDeliverWlanFrame
                    && *final(self) == *old(self),
            },
    {
        if self.fail_wlan_tx {
            Err(Error::CouldNotDeliverWlanFrame)
        } else {
            self.wlan_queue.push((frame, flags));
            Ok(())
        }
    }

    /// Hands a reconstructed Ethernet frame to the local network stack.
    pub fn deliver_eth_frame(&mut self, frame: &[u8]) -> (res: Result<(), Error>)
        ensures
            match res {
                Ok(()) => !old(self).fail_eth_tx
                    && *final(self) == (Device {
                        eth_queue: final(self).eth_queue,
                        ..*old(self)
                    })
                    && final(self).eth_queue@.len() == old(self).eth_queue@.len() + 1
                    && final(self).eth_queue@ == old(self).eth_queue@.push(
                        final(self).eth_queue@.last(),
                    )
                    && final(self).eth_queue@.last()@ == frame@,
                Err(e) => old(self).fail_eth_tx && e == Error::CouldNotDeliverEthFrame
                    && *final(self) == *old(self),
            },
    {
        if self.fail_eth_tx {
            Err(Error::CouldNotDeliverEthFrame)
        } else {
            let v = slice_to_vec(frame);
            self.eth_queue.push(v);
            Ok(())
        }
    }

    /// Sends an indication or confirmation to the upper layer.
    pub fn send_sme_message(&mut self, msg: SmeMessage) -> (res: Result<(), Error>)
        ensures
            match res {
                Ok(()) => !old(self).fail_sme
                    && *final(self) == (Device {
                        sme_queue: final(self).sme_queue,
                        ..*old(self)
                    })
                    && final(self).sme_queue@ == old(self).sme_queue@.push(msg),
                Err(e) => old(self).fail_sme && e == Error::CouldNotDeliverSmeMessage
                    && *final(self) == *old(self),
            },
    {
        if self.fail_sme {
            Err(Error::CouldNotDeliverSmeMessage)
        } else {
            self.sme_queue.push(msg);
            Ok(())
        }
    }
}

/// Hands out caller-owned scratch buffers of a requested capacity.
pub struct BufferProvider {
    /// Makes every allocation fail, as exhausted memory would.
    pub fail: bool,
}

impl BufferProvider {
    pub fn new() -> (r: Self)
        ensures
            !r.fail,
    {
        BufferProvider { fail: false }
    }

    /// A fresh writer over a buffer of at least the requested capacity.
    pub fn get_buffer(&self, min_capacity: usize) -> (res: Result<BufferWriter, Error>)
        ensures
            match res {
                Ok(w) => !self.fail && w.wf() && w.written() == Seq::<u8>::empty()
                    && w.cap_spec() == min_capacity,
                Err(e) => self.fail && e == Error::NoResources,
            },
    {
        if self.fail {
            Err(Error::NoResources)
        } else {
            Ok(BufferWriter::new(min_capacity))
        }
    }
}

} // verus!
