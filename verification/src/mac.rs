//! MAC frame grammar: addresses, frame control, fixed headers and the
//! LLC/SNAP encapsulation, together with their byte-exact wire codecs.

use vstd::prelude::*;
use crate::bits::{get_bits16, set_bits16, get_bit16, set_bit16, read_bits_u16, write_bits_u16,
    read_bit_u16, write_bit_u16};
use crate::buffer_reader::BufferReader;
use crate::buffer_writer::BufferWriter;
use crate::error::Error;
use crate::messages::{compose_message, decimal_chars};
use crate::wire::{u16_from_le, u16_from_be, u16_le_bytes, u16_be_bytes};

verus! {

/// A 6-byte IEEE MAC address; equality and ordering are byte-wise.
pub type MacAddr = [u8; 6];

/// The MAC address identifying a basic service set.
#[derive(Clone, Copy, PartialEq, Eq, Hash, Debug)]
pub struct Bssid(pub MacAddr);

/// IEEE Std 802.11-2016, 9.4.1.7; for example, 47 is "AP initiated".
#[derive(Clone, Copy, PartialEq, Eq, Hash, Debug)]
pub struct ReasonCode(pub u16);

/// IEEE Std 802.11-2016, 9.4.1.9; 0 is success.
#[derive(Clone, Copy, PartialEq, Eq, Hash, Debug)]
pub struct StatusCode(pub u16);

/// IEEE Std 802.11-2016, 9.4.1.1; 0 is Open System authentication.
#[derive(Clone, Copy, PartialEq, Eq, Hash, Debug)]
pub struct AuthAlgorithmNumber(pub u16);

/// An association identifier.
pub type Aid = u16;

/// The ethertype carrying EAPOL (802.1X) control traffic.
pub const ETHER_TYPE_EAPOL: u16 = 0x888E;

/// Reads a MAC address as six raw bytes.
pub fn read_mac_addr(r: &mut BufferReader) -> (res: Option<MacAddr>)
    requires
        old(r).wf(),
    ensures
        final(r).wf(),
        final(r).bytes() == old(r).bytes(),
        match res {
            Some(m) => old(r).remaining_spec().len() >= 6
                && m@ == old(r).remaining_spec().subrange(0, 6)
                && final(r).pos_spec() == old(r).pos_spec() + 6,
            None => old(r).remaining_spec().len() < 6
                && final(r).pos_spec() == old(r).pos_spec(),
        },
{
    match r.read_bytes(6) {
        Some(s) => {
            let m: MacAddr = [s[0], s[1], s[2], s[3], s[4], s[5]];
            assert(m@ =~= s@);
            Some(m)
        },
        None => None,
    }
}

/// Reads an organizationally unique identifier as three raw bytes.
pub fn read_oui(r: &mut BufferReader) -> (res: Option<[u8; 3]>)
    requires
        old(r).wf(),
    ensures
        final(r).wf(),
        final(r).bytes() == old(r).bytes(),
        match res {
            Some(m) => old(r).remaining_spec().len() >= 3
                && m@ == old(r).remaining_spec().subrange(0, 3)
                && final(r).pos_spec() == old(r).pos_spec() + 3,
            None => old(r).remaining_spec().len() < 3
                && final(r).pos_spec() == old(r).pos_spec(),
        },
{
    match r.read_bytes(3) {
        Some(s) => {
            let m: [u8; 3] = [s[0], s[1], s[2]];
            assert(m@ =~= s@);
            Some(m)
        },
        None => None,
    }
}

/// Appends a MAC address as six raw bytes.
pub fn append_mac_addr(w: &mut BufferWriter, m: &MacAddr)
    requires
        old(w).wf(),
        old(w).written().len() + 6 <= old(w).cap_spec(),
    ensures
        final(w).wf(),
        final(w).cap_spec() == old(w).cap_spec(),
        final(w).written() == old(w).written() + m@,
{
    w.append_bytes(m.as_slice());
}

/// IEEE Std 802.11-2016, 9.2.4.1: frame type 0 is management, 1 is control, 2 is data.
#[derive(Clone, Copy, PartialEq, Eq, Hash, Debug)]
pub struct FrameControl(pub u16);

impl FrameControl {

    pub fn protocol_version(&self) -> (r: u16)
        ensures
            r == get_bits16(self.0, 0, 0x3),
    {
        read_bits_u16(self.0, 0, 0x3)
    }

    pub fn set_protocol_version(&mut self, v: u16) -> (res: Result<(), String>)
        ensures
            (match res {
                Ok(()) => v <= 0x3
                    && final(self).0 == set_bits16(old(self).0, 0, 0x3, v),
                Err(m) => v > 0x3 && *final(self) == *old(self)
                    && m@ == "bitfield is only 2 bit wide, "@ + decimal_chars(v as u128)
                        + " invalid"@,
            }),
    {
        if v > 0x3 {
            Err(compose_message("bitfield is only 2 bit wide, ", v as u128, " invalid"))
        } else {
            self.0 = write_bits_u16(self.0, 0, 0x3, v);
            Ok(())
        }
    }

    pub fn frame_type(&self) -> (r: u16)
        ensures
            r == get_bits16(self.0, 2, 0x3),
    {
        read_bits_u16(self.0, 2, 0x3)
    }

    pub fn set_frame_type(&mut self, v: u16) -> (res: Result<(), String>)
        ensures
            (match res {
                Ok(()) => v <= 0x3
                    && final(self).0 == set_bits16(old(self).0, 2, 0x3, v),
                Err(m) => v > 0x3 && *final(self) == *old(self)
                    && m@ == "bitfield is only 2 bit wide, "@ + decimal_chars(v as u128)
                        + " invalid"@,
            }),
    {
        if v > 0x3 {
            Err(compose_message("bitfield is only 2 bit wide, ", v as u128, " invalid"))
        } else {
            self.0 = write_bits_u16(self.0, 2, 0x3, v);
            Ok(())
        }
    }

    pub fn frame_subtype(&self) -> (r: u16)
        ensures
            r == get_bits16(self.0, 4, 0xf),
    {
        read_bits_u16(self.0, 4, 0xf)
    }

    pub fn set_frame_subtype(&mut self, v: u16) -> (res: Result<(), String>)
        ensures
            (match res {
                Ok(()) => v <= 0xf
                    && final(self).0 == set_bits16(old(self).0, 4, 0xf, v),
                Err(m) => v > 0xf && *final(self) == *old(self)
                    && m@ == "bitfield is only 4 bit wide, "@ + decimal_chars(v as u128)
                        + " invalid"@,
            }),
    {
        if v > 0xf {
            Err(compose_message("bitfield is only 4 bit wide, ", v as u128, " invalid"))
        } else {
            self.0 = write_bits_u16(self.0, 4, 0xf, v);
            Ok(())
        }
    }

    pub fn to_ds(&self) -> (b: bool)
        ensures
            b == get_bit16(self.0, 8),
    {
        read_bit_u16(self.0, 8)
    }

    pub fn set_to_ds(&mut self, v: bool)
        ensures
            final(self).0 == set_bit16(old(self).0, 8, v),
    {
        self.0 = write_bit_u16(self.0, 8, v);
    }

    pub fn from_ds(&self) -> (b: bool)
        ensures
            b == get_bit16(self.0, 9),
    {
        read_bit_u16(self.0, 9)
    }

    pub fn set_from_ds(&mut self, v: bool)
        ensures
            final(self).0 == set_bit16(old(self).0, 9, v),
    {
        self.0 = write_bit_u16(self.0, 9, v);
    }

    pub fn more_fragments(&self) -> (b: bool)
        ensures
            b == get_bit16(self.0, 10),
    {
        read_bit_u16(self.0, 10)
    }

    pub fn set_more_fragments(&mut self, v: bool)
        ensures
            final(self).0 == set_bit16(old(self).0, 10, v),
    {
        self.0 = write_bit_u16(self.0, 10, v);
    }

    pub fn retry(&self) -> (b: bool)
        ensures
            b == get_bit16(self.0, 11),
    {
        read_bit_u16(self.0, 11)
    }

    pub fn set_retry(&mut self, v: bool)
        ensures
            final(self).0 == set_bit16(old(self).0, 11, v),
    {
        self.0 = write_bit_u16(self.0, 11, v);
    }

    pub fn power_mgmt(&self) -> (b: bool)
        ensures
            b == get_bit16(self.0, 12),
    {
        read_bit_u16(self.0, 12)
    }

    pub fn set_power_mgmt(&mut self, v: bool)
        ensures
            final(self).0 == set_bit16(old(self).0, 12, v),
    {
        self.0 = write_bit_u16(self.0, 12, v);
    }

    pub fn more_data(&self) -> (b: bool)
        ensures
            b == get_bit16(self.0, 13),
    {
        read_bit_u16(self.0, 13)
    }

    pub fn set_more_data(&mut self, v: bool)
        ensures
            final(self).0 == set_bit16(old(self).0, 13, v),
    {
        self.0 = write_bit_u16(self.0, 13, v);
    }

    pub fn protected(&self) -> (b: bool)
        ensures
            b == get_bit16(self.0, 14),
    {
        read_bit_u16(self.0, 14)
    }

    pub fn set_protected(&mut self, v: bool)
        ensures
            final(self).0 == set_bit16(old(self).0, 14, v),
    {
        self.0 = write_bit_u16(self.0, 14, v);
    }

    pub fn htc_order(&self) -> (b: bool)
        ensures
            b == get_bit16(self.0, 15),
    {
        read_bit_u16(self.0, 15)
    }

    pub fn set_htc_order(&mut self, v: bool)
        ensures
            final(self).0 == set_bit16(old(self).0, 15, v),
    {
        self.0 = write_bit_u16(self.0, 15, v);
    }

}

/// IEEE Std 802.11-2016, 9.2.4.4.
#[derive(Clone, Copy, PartialEq, Eq, Hash, Debug)]
pub struct SequenceControl(pub u16);

impl SequenceControl {

    pub fn frag_num(&self) -> (r: u16)
        ensures
            r == get_bits16(self.0, 0, 0xf),
    {
        read_bits_u16(self.0, 0, 0xf)
    }

    pub fn set_frag_num(&mut self, v: u16) -> (res: Result<(), String>)
        ensures
            (match res {
                Ok(()) => v <= 0xf
                    && final(self).0 == set_bits16(old(self).0, 0, 0xf, v),
                Err(m) => v > 0xf && *final(self) == *old(self)
                    && m@ == "bitfield is only 4 bit wide, "@ + decimal_chars(v as u128)
                        + " invalid"@,
            }),
    {
        if v > 0xf {
            Err(compose_message("bitfield is only 4 bit wide, ", v as u128, " invalid"))
        } else {
            self.0 = write_bits_u16(self.0, 0, 0xf, v);
            Ok(())
        }
    }

    pub fn seq_num(&self) -> (r: u16)
        ensures
            r == get_bits16(self.0, 4, 0xfff),
    {
        read_bits_u16(self.0, 4, 0xfff)
    }

    pub fn set_seq_num(&mut self, v: u16) -> (res: Result<(), String>)
        ensures
            (match res {
                Ok(()) => v <= 0xfff
                    && final(self).0 == set_bits16(old(self).0, 4, 0xfff, v),
                Err(m) => v > 0xfff && *final(self) == *old(self)
                    && m@ == "bitfield is only 12 bit wide, "@ + decimal_chars(v as u128)
                        + " invalid"@,
            }),
    {
        if v > 0xfff {
            Err(compose_message("bitfield is only 12 bit wide, ", v as u128, " invalid"))
        } else {
            self.0 = write_bits_u16(self.0, 4, 0xfff, v);
            Ok(())
        }
    }

}

/// IEEE Std 802.11-2016, 9.4.1.4.
#[derive(Clone, Copy, PartialEq, Eq, Hash, Debug)]
pub struct CapabilityInfo(pub u16);

impl CapabilityInfo {

    pub fn ess(&self) -> (b: bool)
        ensures
            b == get_bit16(self.0, 0),
    {
        read_bit_u16(self.0, 0)
    }

    pub fn set_ess(&mut self, v: bool)
        ensures
            final(self).0 == set_bit16(old(self).0, 0, v),
    {
        self.0 = write_bit_u16(self.0, 0, v);
    }

    pub fn ibss(&self) -> (b: bool)
        ensures
            b == get_bit16(self.0, 1),
    {
        read_bit_u16(self.0, 1)
    }

    pub fn set_ibss(&mut self, v: bool)
        ensures
            final(self).0 == set_bit16(old(self).0, 1, v),
    {
        self.0 = write_bit_u16(self.0, 1, v);
    }

    pub fn cf_pollable(&self) -> (b: bool)
        ensures
            b == get_bit16(self.0, 2),
    {
        read_bit_u16(self.0, 2)
    }

    pub fn set_cf_pollable(&mut self, v: bool)
        ensures
            final(self).0 == set_bit16(old(self).0, 2, v),
    {
        self.0 = write_bit_u16(self.0, 2, v);
    }

    pub fn cf_poll_req(&self) -> (b: bool)
        ensures
            b == get_bit16(self.0, 3),
    {
        read_bit_u16(self.0, 3)
    }

    pub fn set_cf_poll_req(&mut self, v: bool)
        ensures
            final(self).0 == set_bit16(old(self).0, 3, v),
    {
        self.0 = write_bit_u16(self.0, 3, v);
    }

    pub fn privacy(&self) -> (b: bool)
        ensures
            b == get_bit16(self.0, 4),
    {
        read_bit_u16(self.0, 4)
    }

    pub fn set_privacy(&mut self, v: bool)
        ensures
            final(self).0 == set_bit16(old(self).0, 4, v),
    {
        self.0 = write_bit_u16(self.0, 4, v);
    }

    pub fn short_preamble(&self) -> (b: bool)
        ensures
            b == get_bit16(self.0, 5),
    {
        read_bit_u16(self.0, 5)
    }

    pub fn set_short_preamble(&mut self, v: bool)
        ensures
            final(self).0 == set_bit16(old(self).0, 5, v),
    {
        self.0 = write_bit_u16(self.0, 5, v);
    }

    pub fn spectrum_mgmt(&self) -> (b: bool)
        ensures
            b == get_bit16(self.0, 8),
    {
        read_bit_u16(self.0, 8)
    }

    pub fn set_spectrum_mgmt(&mut self, v: bool)
        ensures
            final(self).0 == set_bit16(old(self).0, 8, v),
    {
        self.0 = write_bit_u16(self.0, 8, v);
    }

    pub fn qos(&self) -> (b: bool)
        ensures
            b == get_bit16(self.0, 9),
    {
        read_bit_u16(self.0, 9)
    }

    pub fn set_qos(&mut self, v: bool)
        ensures
            final(self).0 == set_bit16(old(self).0, 9, v),
    {
        self.0 = write_bit_u16(self.0, 9, v);
    }

    pub fn short_slot_time(&self) -> (b: bool)
        ensures
            b == get_bit16(self.0, 10),
    {
        read_bit_u16(self.0, 10)
    }

    pub fn set_short_slot_time(&mut self, v: bool)
        ensures
            final(self).0 == set_bit16(old(self).0, 10, v),
    {
        self.0 = write_bit_u16(self.0, 10, v);
    }

    pub fn apsd(&self) -> (b: bool)
        ensures
            b == get_bit16(self.0, 11),
    {
        read_bit_u16(self.0, 11)
    }

    pub fn set_apsd(&mut self, v: bool)
        ensures
            final(self).0 == set_bit16(old(self).0, 11, v),
    {
        self.0 = write_bit_u16(self.0, 11, v);
    }

    pub fn radio_measurement(&self) -> (b: bool)
        ensures
            b == get_bit16(self.0, 12),
    {
        read_bit_u16(self.0, 12)
    }

    pub fn set_radio_measurement(&mut self, v: bool)
        ensures
            final(self).0 == set_bit16(old(self).0, 12, v),
    {
        self.0 = write_bit_u16(self.0, 12, v);
    }

    pub fn delayed_block_ack(&self) -> (b: bool)
        ensures
            b == get_bit16(self.0, 14),
    {
        read_bit_u16(self.0, 14)
    }

    pub fn set_delayed_block_ack(&mut self, v: bool)
        ensures
            final(self).0 == set_bit16(old(self).0, 14, v),
    {
        self.0 = write_bit_u16(self.0, 14, v);
    }

    pub fn immediate_block_ack(&self) -> (b: bool)
        ensures
            b == get_bit16(self.0, 15),
    {
        read_bit_u16(self.0, 15)
    }

    pub fn set_immediate_block_ack(&mut self, v: bool)
        ensures
            final(self).0 == set_bit16(old(self).0, 15, v),
    {
        self.0 = write_bit_u16(self.0, 15, v);
    }

}

/// IEEE Std 802.11-2016, 9.2.4.5.1; the upper byte is queue size or TXOP.
#[derive(Clone, Copy, PartialEq, Eq, Hash, Debug)]
pub struct QosControl(pub u16);

impl QosControl {

    pub fn tid(&self) -> (r: u16)
        ensures
            r == get_bits16(self.0, 0, 0xf),
    {
        read_bits_u16(self.0, 0, 0xf)
    }

    pub fn set_tid(&mut self, v: u16) -> (res: Result<(), String>)
        ensures
            (match res {
                Ok(()) => v <= 0xf
                    && final(self).0 == set_bits16(old(self).0, 0, 0xf, v),
                Err(m) => v > 0xf && *final(self) == *old(self)
                    && m@ == "bitfield is only 4 bit wide, "@ + decimal_chars(v as u128)
                        + " invalid"@,
            }),
    {
        if v > 0xf {
            Err(compose_message("bitfield is only 4 bit wide, ", v as u128, " invalid"))
        } else {
            self.0 = write_bits_u16(self.0, 0, 0xf, v);
            Ok(())
        }
    }

    pub fn eosp(&self) -> (b: bool)
        ensures
            b == get_bit16(self.0, 4),
    {
        read_bit_u16(self.0, 4)
    }

    pub fn set_eosp(&mut self, v: bool)
        ensures
            final(self).0 == set_bit16(old(self).0, 4, v),
    {
        self.0 = write_bit_u16(self.0, 4, v);
    }

    pub fn ack_policy(&self) -> (r: u16)
        ensures
            r == get_bits16(self.0, 5, 0x3),
    {
        read_bits_u16(self.0, 5, 0x3)
    }

    pub fn set_ack_policy(&mut self, v: u16) -> (res: Result<(), String>)
        ensures
            (match res {
                Ok(()) => v <= 0x3
                    && final(self).0 == set_bits16(old(self).0, 5, 0x3, v),
                Err(m) => v > 0x3 && *final(self) == *old(self)
                    && m@ == "bitfield is only 2 bit wide, "@ + decimal_chars(v as u128)
                        + " invalid"@,
            }),
    {
        if v > 0x3 {
            Err(compose_message("bitfield is only 2 bit wide, ", v as u128, " invalid"))
        } else {
            self.0 = write_bits_u16(self.0, 5, 0x3, v);
            Ok(())
        }
    }

    pub fn amsdu_present(&self) -> (b: bool)
        ensures
            b == get_bit16(self.0, 7),
    {
        read_bit_u16(self.0, 7)
    }

    pub fn set_amsdu_present(&mut self, v: bool)
        ensures
            final(self).0 == set_bit16(old(self).0, 7, v),
    {
        self.0 = write_bit_u16(self.0, 7, v);
    }

    pub fn high_byte(&self) -> (r: u16)
        ensures
            r == get_bits16(self.0, 8, 0xff),
    {
        read_bits_u16(self.0, 8, 0xff)
    }

    pub fn set_high_byte(&mut self, v: u16) -> (res: Result<(), String>)
        ensures
            (match res {
                Ok(()) => v <= 0xff
                    && final(self).0 == set_bits16(old(self).0, 8, 0xff, v),
                Err(m) => v > 0xff && *final(self) == *old(self)
                    && m@ == "bitfield is only 8 bit wide, "@ + decimal_chars(v as u128)
                        + " invalid"@,
            }),
    {
        if v > 0xff {
            Err(compose_message("bitfield is only 8 bit wide, ", v as u128, " invalid"))
        } else {
            self.0 = write_bits_u16(self.0, 8, 0xff, v);
            Ok(())
        }
    }

}

/// IEEE Std 802.11-2016, 9.3.3.2: the fixed part of a management frame.
#[derive(Clone, Copy, PartialEq, Eq, Hash, Debug)]
pub struct MgmtHdr {
    pub frame_ctrl: FrameControl,
    pub duration: u16,
    pub addr1: MacAddr,
    pub addr2: MacAddr,
    pub addr3: MacAddr,
    pub seq_ctrl: SequenceControl,
}

impl MgmtHdr {
    /// The exact 24-byte wire image.
    pub open spec fn spec_encode(self) -> Seq<u8> {
        u16_le_bytes(self.frame_ctrl.0)
            + u16_le_bytes(self.duration)
            + self.addr1@
            + self.addr2@
            + self.addr3@
            + u16_le_bytes(self.seq_ctrl.0)
    }

    /// Whether this value is what a 24-byte window `b` decodes to.
    pub open spec fn decodes_from(h: Self, b: Seq<u8>) -> bool {
        &&& h.frame_ctrl.0 == u16_from_le(b[0], b[1])
        &&& h.duration == u16_from_le(b[2], b[3])
        &&& h.addr1@ == b.subrange(4, 10)
        &&& h.addr2@ == b.subrange(10, 16)
        &&& h.addr3@ == b.subrange(16, 22)
        &&& h.seq_ctrl.0 == u16_from_le(b[22], b[23])
    }

    /// Reads the structure if at least 24 bytes remain; otherwise leaves
    /// the cursor unmoved.
    pub fn read_from(r: &mut BufferReader) -> (res: Option<Self>)
        requires
            old(r).wf(),
        ensures
            final(r).wf(),
            final(r).bytes() == old(r).bytes(),
            match res {
                Some(h) => old(r).remaining_spec().len() >= 24
                    && Self::decodes_from(h, old(r).remaining_spec().subrange(0, 24))
                    && final(r).pos_spec() == old(r).pos_spec() + 24,
                None => old(r).remaining_spec().len() < 24
                    && final(r).pos_spec() == old(r).pos_spec(),
            },
    {
        if r.bytes_remaining() < 24 {
            return None;
        }
        let ghost r0 = *r;
        let frame_ctrl = FrameControl(r.read_u16_le().unwrap());
        let duration = r.read_u16_le().unwrap();
        let addr1 = read_mac_addr(r).unwrap();
        let addr2 = read_mac_addr(r).unwrap();
        let addr3 = read_mac_addr(r).unwrap();
        let seq_ctrl = SequenceControl(r.read_u16_le().unwrap());
        let h = MgmtHdr { frame_ctrl, duration, addr1, addr2, addr3, seq_ctrl };
        proof {
            let b = r0.remaining_spec().subrange(0, 24);
            assert(addr1@ =~= b.subrange(4, 10));
            assert(addr2@ =~= b.subrange(10, 16));
            assert(addr3@ =~= b.subrange(16, 22));
            assert(Self::decodes_from(h, b));
        }
        Some(h)
    }

    /// Writes the 24-byte wire image, or fails without writing anything
    /// if the buffer cannot hold it.
    pub fn write_to(&self, w: &mut BufferWriter) -> (res: Result<(), Error>)
        requires
            old(w).wf(),
        ensures
            final(w).wf(),
            final(w).cap_spec() == old(w).cap_spec(),
            match res {
                Ok(()) => old(w).cap_spec() - old(w).written().len() >= 24
                    && final(w).written() == old(w).written() + self.spec_encode(),
                Err(e) => e == Error::BufferTooSmall
                    && old(w).cap_spec() - old(w).written().len() < 24
                    && *final(w) == *old(w),
            },
    {
        if w.remaining_cap() < 24 {
            return Err(Error::BufferTooSmall);
        }
        let ghost w0 = *w;
        w.append_u16_le(self.frame_ctrl.0);
        w.append_u16_le(self.duration);
        append_mac_addr(w, &self.addr1);
        append_mac_addr(w, &self.addr2);
        append_mac_addr(w, &self.addr3);
        w.append_u16_le(self.seq_ctrl.0);
        assert(w.written() =~= w0.written() + self.spec_encode());
        Ok(())
    }

    /// Decoding the wire image of a value yields that value and no other:
    /// the encoding is lossless, reserved bits included.
    pub proof fn lemma_roundtrip(self, other: Self)
        requires
            Self::decodes_from(other, self.spec_encode()),
        ensures
            other == self,
    {
        broadcast use vstd::array::group_array_axioms;
        crate::wire::lemma_u16_le_roundtrip(self.frame_ctrl.0);
        crate::wire::lemma_u16_le_roundtrip(self.duration);
        crate::wire::lemma_u16_le_roundtrip(self.seq_ctrl.0);
        assert(self.spec_encode().subrange(4, 10) =~= self.addr1@);
        assert(self.spec_encode().subrange(10, 16) =~= self.addr2@);
        assert(self.spec_encode().subrange(16, 22) =~= self.addr3@);
        assert(other.addr1 =~= self.addr1);
        assert(other.addr2 =~= self.addr2);
        assert(other.addr3 =~= self.addr3);
    }
}

/// IEEE Std 802.11-2016, 9.3.3.12: the fixed part of an authentication frame body.
#[derive(Clone, Copy, PartialEq, Eq, Hash, Debug)]
pub struct AuthHdr {
    pub auth_alg_num: AuthAlgorithmNumber,
    pub auth_txn_seq_num: u16,
    pub status_code: StatusCode,
}

impl AuthHdr {
    /// The exact 6-byte wire image.
    pub open spec fn spec_encode(self) -> Seq<u8> {
        u16_le_bytes(self.auth_alg_num.0)
            + u16_le_bytes(self.auth_txn_seq_num)
            + u16_le_bytes(self.status_code.0)
    }

    /// Whether this value is what a 6-byte window `b` decodes to.
    pub open spec fn decodes_from(h: Self, b: Seq<u8>) -> bool {
        &&& h.auth_alg_num.0 == u16_from_le(b[0], b[1])
        &&& h.auth_txn_seq_num == u16_from_le(b[2], b[3])
        &&& h.status_code.0 == u16_from_le(b[4], b[5])
    }

    /// Reads the structure if at least 6 bytes remain; otherwise leaves
    /// the cursor unmoved.
    pub fn read_from(r: &mut BufferReader) -> (res: Option<Self>)
        requires
            old(r).wf(),
        ensures
            final(r).wf(),
            final(r).bytes() == old(r).bytes(),
            match res {
                Some(h) => old(r).remaining_spec().len() >= 6
                    && Self::decodes_from(h, old(r).remaining_spec().subrange(0, 6))
                    && final(r).pos_spec() == old(r).pos_spec() + 6,
                None => old(r).remaining_spec().len() < 6
                    && final(r).pos_spec() == old(r).pos_spec(),
            },
    {
        if r.bytes_remaining() < 6 {
            return None;
        }
        let ghost r0 = *r;
        let auth_alg_num = AuthAlgorithmNumber(r.read_u16_le().unwrap());
        let auth_txn_seq_num = r.read_u16_le().unwrap();
        let status_code = StatusCode(r.read_u16_le().unwrap());
        let h = AuthHdr { auth_alg_num, auth_txn_seq_num, status_code };
        proof {
            let b = r0.remaining_spec().subrange(0, 6);

            assert(Self::decodes_from(h, b));
        }
        Some(h)
    }

    /// Writes the 6-byte wire image, or fails without writing anything
    /// if the buffer cannot hold it.
    pub fn write_to(&self, w: &mut BufferWriter) -> (res: Result<(), Error>)
        requires
            old(w).wf(),
        ensures
            final(w).wf(),
            final(w).cap_spec() == old(w).cap_spec(),
            match res {
                Ok(()) => old(w).cap_spec() - old(w).written().len() >= 6
                    && final(w).written() == old(w).written() + self.spec_encode(),
                Err(e) => e == Error::BufferTooSmall
                    && old(w).cap_spec() - old(w).written().len() < 6
                    && *final(w) == *old(w),
            },
    {
        if w.remaining_cap() < 6 {
            return Err(Error::BufferTooSmall);
        }
        let ghost w0 = *w;
        w.append_u16_le(self.auth_alg_num.0);
        w.append_u16_le(self.auth_txn_seq_num);
        w.append_u16_le(self.status_code.0);
        assert(w.written() =~= w0.written() + self.spec_encode());
        Ok(())
    }

    /// Decoding the wire image of a value yields that value and no other:
    /// the encoding is lossless, reserved bits included.
    pub proof fn lemma_roundtrip(self, other: Self)
        requires
            Self::decodes_from(other, self.spec_encode()),
        ensures
            other == self,
    {
        broadcast use vstd::array::group_array_axioms;
        crate::wire::lemma_u16_le_roundtrip(self.auth_alg_num.0);
        crate::wire::lemma_u16_le_roundtrip(self.auth_txn_seq_num);
        crate::wire::lemma_u16_le_roundtrip(self.status_code.0);

    }
}

/// IEEE Std 802.11-2016, 9.3.3.6: the fixed part of an association request body.
#[derive(Clone, Copy, PartialEq, Eq, Hash, Debug)]
pub struct AssocReqHdr {
    pub capabilities: CapabilityInfo,
    pub listen_interval: u16,
}

impl AssocReqHdr {
    /// The exact 4-byte wire image.
    pub open spec fn spec_encode(self) -> Seq<u8> {
        u16_le_bytes(self.capabilities.0)
            + u16_le_bytes(self.listen_interval)
    }

    /// Whether this value is what a 4-byte window `b` decodes to.
    pub open spec fn decodes_from(h: Self, b: Seq<u8>) -> bool {
        &&& h.capabilities.0 == u16_from_le(b[0], b[1])
        &&& h.listen_interval == u16_from_le(b[2], b[3])
    }

    /// Reads the structure if at least 4 bytes remain; otherwise leaves
    /// the cursor unmoved.
    pub fn read_from(r: &mut BufferReader) -> (res: Option<Self>)
        requires
            old(r).wf(),
        ensures
            final(r).wf(),
            final(r).bytes() == old(r).bytes(),
            match res {
                Some(h) => old(r).remaining_spec().len() >= 4
                    && Self::decodes_from(h, old(r).remaining_spec().subrange(0, 4))
                    && final(r).pos_spec() == old(r).pos_spec() + 4,
                None => old(r).remaining_spec().len() < 4
                    && final(r).pos_spec() == old(r).pos_spec(),
            },
    {
        if r.bytes_remaining() < 4 {
            return None;
        }
        let ghost r0 = *r;
        let capabilities = CapabilityInfo(r.read_u16_le().unwrap());
        let listen_interval = r.read_u16_le().unwrap();
        let h = AssocReqHdr { capabilities, listen_interval };
        proof {
            let b = r0.remaining_spec().subrange(0, 4);

            assert(Self::decodes_from(h, b));
        }
        Some(h)
    }

    /// Writes the 4-byte wire image, or fails without writing anything
    /// if the buffer cannot hold it.
    pub fn write_to(&self, w: &mut BufferWriter) -> (res: Result<(), Error>)
        requires
            old(w).wf(),
        ensures
            final(w).wf(),
            final(w).cap_spec() == old(w).cap_spec(),
            match res {
                Ok(()) => old(w).cap_spec() - old(w).written().len() >= 4
                    && final(w).written() == old(w).written() + self.spec_encode(),
                Err(e) => e == Error::BufferTooSmall
                    && old(w).cap_spec() - old(w).written().len() < 4
                    && *final(w) == *old(w),
            },
    {
        if w.remaining_cap() < 4 {
            return Err(Error::BufferTooSmall);
        }
        let ghost w0 = *w;
        w.append_u16_le(self.capabilities.0);
        w.append_u16_le(self.listen_interval);
        assert(w.written() =~= w0.written() + self.spec_encode());
        Ok(())
    }

    /// Decoding the wire image of a value yields that value and no other:
    /// the encoding is lossless, reserved bits included.
    pub proof fn lemma_roundtrip(self, other: Self)
        requires
            Self::decodes_from(other, self.spec_encode()),
        ensures
            other == self,
    {
        broadcast use vstd::array::group_array_axioms;
        crate::wire::lemma_u16_le_roundtrip(self.capabilities.0);
        crate::wire::lemma_u16_le_roundtrip(self.listen_interval);

    }
}

/// IEEE Std 802.11-2016, 9.3.3.13: the body of a deauthentication frame.
#[derive(Clone, Copy, PartialEq, Eq, Hash, Debug)]
pub struct DeauthHdr {
    pub reason_code: ReasonCode,
}

impl DeauthHdr {
    /// The exact 2-byte wire image.
    pub open spec fn spec_encode(self) -> Seq<u8> {
        u16_le_bytes(self.reason_code.0)
    }

    /// Whether this value is what a 2-byte window `b` decodes to.
    pub open spec fn decodes_from(h: Self, b: Seq<u8>) -> bool {
        &&& h.reason_code.0 == u16_from_le(b[0], b[1])
    }

    /// Reads the structure if at least 2 bytes remain; otherwise leaves
    /// the cursor unmoved.
    pub fn read_from(r: &mut BufferReader) -> (res: Option<Self>)
        requires
            old(r).wf(),
        ensures
            final(r).wf(),
            final(r).bytes() == old(r).bytes(),
            match res {
                Some(h) => old(r).remaining_spec().len() >= 2
                    && Self::decodes_from(h, old(r).remaining_spec().subrange(0, 2))
                    && final(r).pos_spec() == old(r).pos_spec() + 2,
                None => old(r).remaining_spec().len() < 2
                    && final(r).pos_spec() == old(r).pos_spec(),
            },
    {
        if r.bytes_remaining() < 2 {
            return None;
        }
        let ghost r0 = *r;
        let reason_code = ReasonCode(r.read_u16_le().unwrap());
        let h = DeauthHdr { reason_code };
        proof {
            let b = r0.remaining_spec().subrange(0, 2);

            assert(Self::decodes_from(h, b));
        }
        Some(h)
    }

    /// Writes the 2-byte wire image, or fails without writing anything
    /// if the buffer cannot hold it.
    pub fn write_to(&self, w: &mut BufferWriter) -> (res: Result<(), Error>)
        requires
            old(w).wf(),
        ensures
            final(w).wf(),
            final(w).cap_spec() == old(w).cap_spec(),
            match res {
                Ok(()) => old(w).cap_spec() - old(w).written().len() >= 2
                    && final(w).written() == old(w).written() + self.spec_encode(),
                Err(e) => e == Error::BufferTooSmall
                    && old(w).cap_spec() - old(w).written().len() < 2
                    && *final(w) == *old(w),
            },
    {
        if w.remaining_cap() < 2 {
            return Err(Error::BufferTooSmall);
        }
        let ghost w0 = *w;
        w.append_u16_le(self.reason_code.0);
        assert(w.written() =~= w0.written() + self.spec_encode());
        Ok(())
    }

    /// Decoding the wire image of a value yields that value and no other:
    /// the encoding is lossless, reserved bits included.
    pub proof fn lemma_roundtrip(self, other: Self)
        requires
            Self::decodes_from(other, self.spec_encode()),
        ensures
            other == self,
    {
        broadcast use vstd::array::group_array_axioms;
        crate::wire::lemma_u16_le_roundtrip(self.reason_code.0);

    }
}

/// IEEE Std 802.11-2016, 9.3.2.1: the fixed fields of a data frame header; the fourth address, QoS control and HT control follow only when the frame control flags say so.
#[derive(Clone, Copy, PartialEq, Eq, Hash, Debug)]
pub struct FixedDataHdrFields {
    pub frame_ctrl: FrameControl,
    pub duration: u16,
    pub addr1: MacAddr,
    pub addr2: MacAddr,
    pub addr3: MacAddr,
    pub seq_ctrl: SequenceControl,
}

impl FixedDataHdrFields {
    /// The exact 24-byte wire image.
    pub open spec fn spec_encode(self) -> Seq<u8> {
        u16_le_bytes(self.frame_ctrl.0)
            + u16_le_bytes(self.duration)
            + self.addr1@
            + self.addr2@
            + self.addr3@
            + u16_le_bytes(self.seq_ctrl.0)
    }

    /// Whether this value is what a 24-byte window `b` decodes to.
    pub open spec fn decodes_from(h: Self, b: Seq<u8>) -> bool {
        &&& h.frame_ctrl.0 == u16_from_le(b[0], b[1])
        &&& h.duration == u16_from_le(b[2], b[3])
        &&& h.addr1@ == b.subrange(4, 10)
        &&& h.addr2@ == b.subrange(10, 16)
        &&& h.addr3@ == b.subrange(16, 22)
        &&& h.seq_ctrl.0 == u16_from_le(b[22], b[23])
    }

    /// Reads the structure if at least 24 bytes remain; otherwise leaves
    /// the cursor unmoved.
    pub fn read_from(r: &mut BufferReader) -> (res: Option<Self>)
        requires
            old(r).wf(),
        ensures
            final(r).wf(),
            final(r).bytes() == old(r).bytes(),
            match res {
                Some(h) => old(r).remaining_spec().len() >= 24
                    && Self::decodes_from(h, old(r).remaining_spec().subrange(0, 24))
                    && final(r).pos_spec() == old(r).pos_spec() + 24,
                None => old(r).remaining_spec().len() < 24
                    && final(r).pos_spec() == old(r).pos_spec(),
            },
    {
        if r.bytes_remaining() < 24 {
            return None;
        }
        let ghost r0 = *r;
        let frame_ctrl = FrameControl(r.read_u16_le().unwrap());
        let duration = r.read_u16_le().unwrap();
        let addr1 = read_mac_addr(r).unwrap();
        let addr2 = read_mac_addr(r).unwrap();
        let addr3 = read_mac_addr(r).unwrap();
        let seq_ctrl = SequenceControl(r.read_u16_le().unwrap());
        let h = FixedDataHdrFields { frame_ctrl, duration, addr1, addr2, addr3, seq_ctrl };
        proof {
            let b = r0.remaining_spec().subrange(0, 24);
            assert(addr1@ =~= b.subrange(4, 10));
            assert(addr2@ =~= b.subrange(10, 16));
            assert(addr3@ =~= b.subrange(16, 22));
            assert(Self::decodes_from(h, b));
        }
        Some(h)
    }

    /// Writes the 24-byte wire image, or fails without writing anything
    /// if the buffer cannot hold it.
    pub fn write_to(&self, w: &mut BufferWriter) -> (res: Result<(), Error>)
        requires
            old(w).wf(),
        ensures
            final(w).wf(),
            final(w).cap_spec() == old(w).cap_spec(),
            match res {
                Ok(()) => old(w).cap_spec() - old(w).written().len() >= 24
                    && final(w).written() == old(w).written() + self.spec_encode(),
                Err(e) => e == Error::BufferTooSmall
                    && old(w).cap_spec() - old(w).written().len() < 24
                    && *final(w) == *old(w),
            },
    {
        if w.remaining_cap() < 24 {
            return Err(Error::BufferTooSmall);
        }
        let ghost w0 = *w;
        w.append_u16_le(self.frame_ctrl.0);
        w.append_u16_le(self.duration);
        append_mac_addr(w, &self.addr1);
        append_mac_addr(w, &self.addr2);
        append_mac_addr(w, &self.addr3);
        w.append_u16_le(self.seq_ctrl.0);
        assert(w.written() =~= w0.written() + self.spec_encode());
        Ok(())
    }

    /// Decoding the wire image of a value yields that value and no other:
    /// the encoding is lossless, reserved bits included.
    pub proof fn lemma_roundtrip(self, other: Self)
        requires
            Self::decodes_from(other, self.spec_encode()),
        ensures
            other == self,
    {
        broadcast use vstd::array::group_array_axioms;
        crate::wire::lemma_u16_le_roundtrip(self.frame_ctrl.0);
        crate::wire::lemma_u16_le_roundtrip(self.duration);
        crate::wire::lemma_u16_le_roundtrip(self.seq_ctrl.0);
        assert(self.spec_encode().subrange(4, 10) =~= self.addr1@);
        assert(self.spec_encode().subrange(10, 16) =~= self.addr2@);
        assert(self.spec_encode().subrange(16, 22) =~= self.addr3@);
        assert(other.addr1 =~= self.addr1);
        assert(other.addr2 =~= self.addr2);
        assert(other.addr3 =~= self.addr3);
    }
}

/// IEEE Std 802.2-1998, 3.2: the LLC/SNAP header carried at the start of each MSDU; the protocol identifier is big-endian.
#[derive(Clone, Copy, PartialEq, Eq, Hash, Debug)]
pub struct LlcHdr {
    pub dsap: u8,
    pub ssap: u8,
    pub control: u8,
    pub oui: [u8; 3],
    pub protocol_id: u16,
}

impl LlcHdr {
    /// The exact 8-byte wire image.
    pub open spec fn spec_encode(self) -> Seq<u8> {
        seq![self.dsap]
            + seq![self.ssap]
            + seq![self.control]
            + self.oui@
            + u16_be_bytes(self.protocol_id)
    }

    /// Whether this value is what a 8-byte window `b` decodes to.
    pub open spec fn decodes_from(h: Self, b: Seq<u8>) -> bool {
        &&& h.dsap == b[0]
        &&& h.ssap == b[1]
        &&& h.control == b[2]
        &&& h.oui@ == b.subrange(3, 6)
        &&& h.protocol_id == u16_from_be(b[6], b[7])
    }

    /// Reads the structure if at least 8 bytes remain; otherwise leaves
    /// the cursor unmoved.
    pub fn read_from(r: &mut BufferReader) -> (res: Option<Self>)
        requires
            old(r).wf(),
        ensures
            final(r).wf(),
            final(r).bytes() == old(r).bytes(),
            match res {
                Some(h) => old(r).remaining_spec().len() >= 8
                    && Self::decodes_from(h, old(r).remaining_spec().subrange(0, 8))
                    && final(r).pos_spec() == old(r).pos_spec() + 8,
                None => old(r).remaining_spec().len() < 8
                    && final(r).pos_spec() == old(r).pos_spec(),
            },
    {
        if r.bytes_remaining() < 8 {
            return None;
        }
        let ghost r0 = *r;
        let dsap = r.read_u8().unwrap();
        let ssap = r.read_u8().unwrap();
        let control = r.read_u8().unwrap();
        let oui = read_oui(r).unwrap();
        let protocol_id = r.read_u16_be().unwrap();
        let h = LlcHdr { dsap, ssap, control, oui, protocol_id };
        proof {
            let b = r0.remaining_spec().subrange(0, 8);
            assert(oui@ =~= b.subrange(3, 6));
            assert(Self::decodes_from(h, b));
        }
        Some(h)
    }

    /// Writes the 8-byte wire image, or fails without writing anything
    /// if the buffer cannot hold it.
    pub fn write_to(&self, w: &mut BufferWriter) -> (res: Result<(), Error>)
        requires
            old(w).wf(),
        ensures
            final(w).wf(),
            final(w).cap_spec() == old(w).cap_spec(),
            match res {
                Ok(()) => old(w).cap_spec() - old(w).written().len() >= 8
                    && final(w).written() == old(w).written() + self.spec_encode(),
                Err(e) => e == Error::BufferTooSmall
                    && old(w).cap_spec() - old(w).written().len() < 8
                    && *final(w) == *old(w),
            },
    {
        if w.remaining_cap() < 8 {
            return Err(Error::BufferTooSmall);
        }
        let ghost w0 = *w;
        w.append_u8(self.dsap);
        w.append_u8(self.ssap);
        w.append_u8(self.control);
        w.append_bytes(self.oui.as_slice());
        w.append_u16_be(self.protocol_id);
        assert(w.written() =~= w0.written() + self.spec_encode());
        Ok(())
    }

    /// Decoding the wire image of a value yields that value and no other:
    /// the encoding is lossless, reserved bits included.
    pub proof fn lemma_roundtrip(self, other: Self)
        requires
            Self::decodes_from(other, self.spec_encode()),
        ensures
            other == self,
    {
        broadcast use vstd::array::group_array_axioms;
        crate::wire::lemma_u16_be_roundtrip(self.protocol_id);
        assert(self.spec_encode().subrange(3, 6) =~= self.oui@);
        assert(other.oui =~= self.oui);
    }
}

/// IEEE Std 802.11-2016, 9.3.1.5: the PS-Poll control frame.
#[derive(Clone, Copy, PartialEq, Eq, Hash, Debug)]
pub struct PsPoll {
    pub frame_ctrl: FrameControl,
    pub masked_aid: u16,
    pub bssid: Bssid,
    pub ta: MacAddr,
}

impl PsPoll {
    /// The exact 16-byte wire image.
    pub open spec fn spec_encode(self) -> Seq<u8> {
        u16_le_bytes(self.frame_ctrl.0)
            + u16_le_bytes(self.masked_aid)
            + self.bssid.0@
            + self.ta@
    }

    /// Whether this value is what a 16-byte window `b` decodes to.
    pub open spec fn decodes_from(h: Self, b: Seq<u8>) -> bool {
        &&& h.frame_ctrl.0 == u16_from_le(b[0], b[1])
        &&& h.masked_aid == u16_from_le(b[2], b[3])
        &&& h.bssid.0@ == b.subrange(4, 10)
        &&& h.ta@ == b.subrange(10, 16)
    }

    /// Reads the structure if at least 16 bytes remain; otherwise leaves
    /// the cursor unmoved.
    pub fn read_from(r: &mut BufferReader) -> (res: Option<Self>)
        requires
            old(r).wf(),
        ensures
            final(r).wf(),
            final(r).bytes() == old(r).bytes(),
            match res {
                Some(h) => old(r).remaining_spec().len() >= 16
                    && Self::decodes_from(h, old(r).remaining_spec().subrange(0, 16))
                    && final(r).pos_spec() == old(r).pos_spec() + 16,
                None => old(r).remaining_spec().len() < 16
                    && final(r).pos_spec() == old(r).pos_spec(),
            },
    {
        if r.bytes_remaining() < 16 {
            return None;
        }
        let ghost r0 = *r;
        let frame_ctrl = FrameControl(r.read_u16_le().unwrap());
        let masked_aid = r.read_u16_le().unwrap();
        let bssid = Bssid(read_mac_addr(r).unwrap());
        let ta = read_mac_addr(r).unwrap();
        let h = PsPoll { frame_ctrl, masked_aid, bssid, ta };
        proof {
            let b = r0.remaining_spec().subrange(0, 16);
            assert(bssid.0@ =~= b.subrange(4, 10));
            assert(ta@ =~= b.subrange(10, 16));
            assert(Self::decodes_from(h, b));
        }
        Some(h)
    }

    /// Writes the 16-byte wire image, or fails without writing anything
    /// if the buffer cannot hold it.
    pub fn write_to(&self, w: &mut BufferWriter) -> (res: Result<(), Error>)
        requires
            old(w).wf(),
        ensures
            final(w).wf(),
            final(w).cap_spec() == old(w).cap_spec(),
            match res {
                Ok(()) => old(w).cap_spec() - old(w).written().len() >= 16
                    && final(w).written() == old(w).written() + self.spec_encode(),
                Err(e) => e == Error::BufferTooSmall
                    && old(w).cap_spec() - old(w).written().len() < 16
                    && *final(w) == *old(w),
            },
    {
        if w.remaining_cap() < 16 {
            return Err(Error::BufferTooSmall);
        }
        let ghost w0 = *w;
        w.append_u16_le(self.frame_ctrl.0);
        w.append_u16_le(self.masked_aid);
        append_mac_addr(w, &self.bssid.0);
        append_mac_addr(w, &self.ta);
        assert(w.written() =~= w0.written() + self.spec_encode());
        Ok(())
    }

    /// Decoding the wire image of a value yields that value and no other:
    /// the encoding is lossless, reserved bits included.
    pub proof fn lemma_roundtrip(self, other: Self)
        requires
            Self::decodes_from(other, self.spec_encode()),
        ensures
            other == self,
    {
        broadcast use vstd::array::group_array_axioms;
        crate::wire::lemma_u16_le_roundtrip(self.frame_ctrl.0);
        crate::wire::lemma_u16_le_roundtrip(self.masked_aid);
        assert(self.spec_encode().subrange(4, 10) =~= self.bssid.0@);
        assert(self.spec_encode().subrange(10, 16) =~= self.ta@);
        assert(other.bssid.0 =~= self.bssid.0);
        assert(other.ta =~= self.ta);
    }
}

/// IEEE Std 802.11-2016, 9.3.3.7: the fixed part of an association response body.
#[derive(Clone, Copy, PartialEq, Eq, Hash, Debug)]
pub struct AssocRespHdr {
    pub capabilities: CapabilityInfo,
    pub status_code: StatusCode,
    pub aid: u16,
}

impl AssocRespHdr {
    /// The exact 6-byte wire image.
    pub open spec fn spec_encode(self) -> Seq<u8> {
        u16_le_bytes(self.capabilities.0)
            + u16_le_bytes(self.status_code.0)
            + u16_le_bytes(self.aid)
    }

    /// Whether this value is what a 6-byte window `b` decodes to.
    pub open spec fn decodes_from(h: Self, b: Seq<u8>) -> bool {
        &&& h.capabilities.0 == u16_from_le(b[0], b[1])
        &&& h.status_code.0 == u16_from_le(b[2], b[3])
        &&& h.aid == u16_from_le(b[4], b[5])
    }

    /// Reads the structure if at least 6 bytes remain; otherwise leaves
    /// the cursor unmoved.
    pub fn read_from(r: &mut BufferReader) -> (res: Option<Self>)
        requires
            old(r).wf(),
        ensures
            final(r).wf(),
            final(r).bytes() == old(r).bytes(),
            match res {
                Some(h) => old(r).remaining_spec().len() >= 6
                    && Self::decodes_from(h, old(r).remaining_spec().subrange(0, 6))
                    && final(r).pos_spec() == old(r).pos_spec() + 6,
                None => old(r).remaining_spec().len() < 6
                    && final(r).pos_spec() == old(r).pos_spec(),
            },
    {
        if r.bytes_remaining() < 6 {
            return None;
        }
        let ghost r0 = *r;
        let capabilities = CapabilityInfo(r.read_u16_le().unwrap());
        let status_code = StatusCode(r.read_u16_le().unwrap());
        let aid = r.read_u16_le().unwrap();
        let h = AssocRespHdr { capabilities, status_code, aid };
        proof {
            let b = r0.remaining_spec().subrange(0, 6);

            assert(Self::decodes_from(h, b));
        }
        Some(h)
    }

    /// Writes the 6-byte wire image, or fails without writing anything
    /// if the buffer cannot hold it.
    pub fn write_to(&self, w: &mut BufferWriter) -> (res: Result<(), Error>)
        requires
            old(w).wf(),
        ensures
            final(w).wf(),
            final(w).cap_spec() == old(w).cap_spec(),
            match res {
                Ok(()) => old(w).cap_spec() - old(w).written().len() >= 6
                    && final(w).written() == old(w).written() + self.spec_encode(),
                Err(e) => e == Error::BufferTooSmall
                    && old(w).cap_spec() - old(w).written().len() < 6
                    && *final(w) == *old(w),
            },
    {
        if w.remaining_cap() < 6 {
            return Err(Error::BufferTooSmall);
        }
        let ghost w0 = *w;
        w.append_u16_le(self.capabilities.0);
        w.append_u16_le(self.status_code.0);
        w.append_u16_le(self.aid);
        assert(w.written() =~= w0.written() + self.spec_encode());
        Ok(())
    }

    /// Decoding the wire image of a value yields that value and no other:
    /// the encoding is lossless, reserved bits included.
    pub proof fn lemma_roundtrip(self, other: Self)
        requires
            Self::decodes_from(other, self.spec_encode()),
        ensures
            other == self,
    {
        broadcast use vstd::array::group_array_axioms;
        crate::wire::lemma_u16_le_roundtrip(self.capabilities.0);
        crate::wire::lemma_u16_le_roundtrip(self.status_code.0);
        crate::wire::lemma_u16_le_roundtrip(self.aid);

    }
}

/// The frame control field of a data frame, read from its first two bytes.
pub open spec fn data_fc(b: Seq<u8>) -> u16 {
    u16_from_le(b[0], b[1])
}

/// Whether the bytes start like a data frame: a frame control field whose
/// type is 2.
pub open spec fn is_data_frame_bytes(b: Seq<u8>) -> bool {
    b.len() >= 2 && get_bits16(data_fc(b), 2, 0x3) == 2
}

/// Whether the data subtype is a NULL variant (no body, keep-alive probe).
pub open spec fn is_null_data_frame(b: Seq<u8>) -> bool {
    get_bit16(data_fc(b), 6)
}

/// Whether the fourth address is present: both distribution-system flags.
pub open spec fn data_has_addr4(b: Seq<u8>) -> bool {
    get_bit16(data_fc(b), 8) && get_bit16(data_fc(b), 9)
}

/// Whether the QoS control field is present: the QoS subtype bit.
pub open spec fn data_has_qos(b: Seq<u8>) -> bool {
    get_bit16(data_fc(b), 7)
}

/// Whether the HT control field is present: a QoS frame with the order bit.
pub open spec fn data_has_htc(b: Seq<u8>) -> bool {
    data_has_qos(b) && get_bit16(data_fc(b), 15)
}

/// The length of the data frame header: the fixed fields plus whichever
/// optional fields the frame control flags announce.
pub open spec fn data_hdr_len(b: Seq<u8>) -> int {
    24 + (if data_has_addr4(b) { 6int } else { 0int })
        + (if data_has_qos(b) { 2int } else { 0int })
        + (if data_has_htc(b) { 4int } else { 0int })
}

/// Where the frame body starts: after the header, and after the padding to
/// the next 4-byte boundary when the driver aligned the body.
pub open spec fn data_body_offset(b: Seq<u8>, body_aligned: bool) -> int {
    let h = data_hdr_len(b);
    if body_aligned {
        h + ((4 - h % 4) % 4)
    } else {
        h
    }
}

/// The destination of the MSDUs of a non-aggregated data frame.
pub open spec fn data_dst_addr(b: Seq<u8>) -> Seq<u8> {
    if get_bit16(data_fc(b), 8) {
        b.subrange(16, 22)
    } else {
        b.subrange(4, 10)
    }
}

/// The source of the MSDUs of a non-aggregated data frame.
pub open spec fn data_src_addr(b: Seq<u8>) -> Seq<u8> {
    if !get_bit16(data_fc(b), 9) {
        b.subrange(10, 16)
    } else if !get_bit16(data_fc(b), 8) {
        b.subrange(16, 22)
    } else {
        b.subrange(24, 30)
    }
}

/// The offset of the QoS control field, right after the addresses.
pub open spec fn data_qos_offset(b: Seq<u8>) -> int {
    24 + (if data_has_addr4(b) { 6int } else { 0int })
}

/// Whether the body is an aggregate of MSDU subframes: bit 7 of QoS control.
pub open spec fn data_is_amsdu(b: Seq<u8>) -> bool {
    data_has_qos(b) && get_bit16(
        u16_from_le(b[data_qos_offset(b)], b[data_qos_offset(b) + 1]),
        7,
    )
}

/// One extracted MSDU, as the mathematical model of the extraction: its
/// addresses, the protocol identifier of its LLC header, and its payload.
pub struct SpecMsdu {
    pub dst: Seq<u8>,
    pub src: Seq<u8>,
    pub protocol_id: u16,
    pub body: Seq<u8>,
}

/// `x` rounded up to the next multiple of four.
pub open spec fn round_up4(x: int) -> int {
    x + ((4 - x % 4) % 4)
}

/// The MSDUs carried by an A-MSDU body: subframes of destination, source,
/// a big-endian length, an LLC header and the payload, each padded to a
/// 4-byte boundary before the next. A subframe whose announced length
/// exceeds the remaining bytes, or cannot hold an LLC header, ends the
/// sequence; the MSDUs before it remain. Trailing padding shorter than
/// announced also ends the sequence.
pub open spec fn amsdu_subframes(b: Seq<u8>) -> Seq<SpecMsdu>
    decreases b.len(),
{
    if b.len() < 14 {
        Seq::empty()
    } else {
        let len = u16_from_be(b[12], b[13]) as int;
        if len < 8 || b.len() < 14 + len {
            Seq::empty()
        } else {
            let m = SpecMsdu {
                dst: b.subrange(0, 6),
                src: b.subrange(6, 12),
                protocol_id: u16_from_be(b[20], b[21]),
                body: b.subrange(22, 14 + len),
            };
            let consumed = round_up4(14 + len);
            if consumed >= b.len() {
                seq![m]
            } else {
                seq![m] + amsdu_subframes(b.subrange(consumed, b.len() as int))
            }
        }
    }
}

/// The MSDUs of a non-aggregated body: one, if it can hold an LLC header.
pub open spec fn single_llc_msdu(dst: Seq<u8>, src: Seq<u8>, body: Seq<u8>) -> Seq<SpecMsdu> {
    if body.len() < 8 {
        Seq::empty()
    } else {
        seq![
            SpecMsdu {
                dst: dst,
                src: src,
                protocol_id: u16_from_be(body[6], body[7]),
                body: body.subrange(8, body.len() as int),
            },
        ]
    }
}

/// All MSDUs of a data frame: none for a frame that is not data, is
/// truncated, or is a NULL variant; the subframes of an aggregate; else the
/// single LLC-framed payload.
pub open spec fn data_frame_msdus(b: Seq<u8>, body_aligned: bool) -> Seq<SpecMsdu> {
    if !is_data_frame_bytes(b) || b.len() < data_body_offset(b, body_aligned)
        || is_null_data_frame(b) {
        Seq::empty()
    } else {
        let body = b.subrange(data_body_offset(b, body_aligned), b.len() as int);
        if data_is_amsdu(b) {
            amsdu_subframes(body)
        } else {
            single_llc_msdu(data_dst_addr(b), data_src_addr(b), body)
        }
    }
}

/// One extracted MSDU: its addresses, LLC header and payload.
#[derive(Clone, Copy)]
pub struct Msdu<'a> {
    pub dst_addr: MacAddr,
    pub src_addr: MacAddr,
    pub llc_hdr: LlcHdr,
    pub payload: &'a [u8],
}

impl<'a> Msdu<'a> {
    /// Whether this value carries exactly the modelled MSDU.
    pub open spec fn matches(&self, m: SpecMsdu) -> bool {
        &&& self.dst_addr@ == m.dst
        &&& self.src_addr@ == m.src
        &&& self.llc_hdr.protocol_id == m.protocol_id
        &&& self.payload@ == m.body
    }
}

/// A parsed data frame header with its body.
pub struct ParsedDataFrame<'a> {
    pub fixed: FixedDataHdrFields,
    pub addr4: Option<MacAddr>,
    pub qos_ctrl: Option<QosControl>,
    pub dst_addr: MacAddr,
    pub src_addr: MacAddr,
    pub body: &'a [u8],
}

/// Parses the header of a data frame and locates its body. Anything that is
/// not a data frame, or is too short for the fields its own flags announce,
/// is rejected as a whole.
pub fn parse_data_frame(bytes: &[u8], body_aligned: bool) -> (res: Option<ParsedDataFrame>)
    ensures
        res is Some <==> is_data_frame_bytes(bytes@) && bytes@.len() >= data_body_offset(
            bytes@,
            body_aligned,
        ),
        match res {
            Some(v) => {
                &&& FixedDataHdrFields::decodes_from(v.fixed, bytes@.subrange(0, 24))
                &&& (match v.addr4 {
                    Some(a) => data_has_addr4(bytes@) && a@ == bytes@.subrange(24, 30),
                    None => !data_has_addr4(bytes@),
                })
                &&& (match v.qos_ctrl {
                    Some(q) => data_has_qos(bytes@) && q.0 == u16_from_le(
                        bytes@[data_qos_offset(bytes@)],
                        bytes@[data_qos_offset(bytes@) + 1],
                    ),
                    None => !data_has_qos(bytes@),
                })
                &&& v.dst_addr@ == data_dst_addr(bytes@)
                &&& v.src_addr@ == data_src_addr(bytes@)
                &&& v.body@ == bytes@.subrange(
                    data_body_offset(bytes@, body_aligned),
                    bytes@.len() as int,
                )
            },
            None => true,
        },
{
    let mut r = BufferReader::new(bytes);
    let fixed = match FixedDataHdrFields::read_from(&mut r) {
        Some(f) => f,
        None => {
            return None;
        },
    };
    assert(bytes@.subrange(0, bytes@.len() as int) =~= bytes@);
    assert(fixed.frame_ctrl.0 == data_fc(bytes@));
    if fixed.frame_ctrl.frame_type() != 2 {
        return None;
    }
    let to_ds = fixed.frame_ctrl.to_ds();
    let from_ds = fixed.frame_ctrl.from_ds();
    let has_addr4 = to_ds && from_ds;
    let addr4 = if has_addr4 {
        match read_mac_addr(&mut r) {
            Some(a) => {
                assert(a@ =~= bytes@.subrange(24, 30));
                Some(a)
            },
            None => {
                return None;
            },
        }
    } else {
        None
    };
    let has_qos = read_bit_u16(fixed.frame_ctrl.0, 7);
    let qos_ctrl = if has_qos {
        match r.read_u16_le() {
            Some(q) => Some(QosControl(q)),
            None => {
                return None;
            },
        }
    } else {
        None
    };
    let has_htc = has_qos && fixed.frame_ctrl.htc_order();
    if has_htc {
        match r.read_u32_le() {
            Some(_h) => {},
            None => {
                return None;
            },
        }
    }
    let hdr_len: usize = 24 + (if has_addr4 { 6 } else { 0 }) + (if has_qos { 2 } else { 0 })
        + (if has_htc { 4 } else { 0 });
    assert(hdr_len == data_hdr_len(bytes@));
    if body_aligned {
        let pad: usize = (4 - hdr_len % 4) % 4;
        match r.read_bytes(pad) {
            Some(_p) => {},
            None => {
                return None;
            },
        }
    }
    assert(r.pos_spec() == data_body_offset(bytes@, body_aligned));
    let body = r.read_rest();
    let dst_addr = if to_ds {
        fixed.addr3
    } else {
        fixed.addr1
    };
    let src_addr = if !from_ds {
        fixed.addr2
    } else if !to_ds {
        fixed.addr3
    } else {
        match addr4 {
            Some(a) => a,
            None => {
                return None;
            },
        }
    };
    Some(ParsedDataFrame { fixed, addr4, qos_ctrl, dst_addr, src_addr, body })
}

/// A finite walk over the subframes of an A-MSDU body. Each step reads the
/// subframe header, checks that the announced length fits and can hold an
/// LLC header, yields the MSDU, and skips the padding to the next 4-byte
/// boundary; a step that cannot complete ends the walk, and the MSDUs
/// already yielded remain valid.
pub struct AmsduIter<'a> {
    reader: BufferReader<'a>,
}

impl<'a> AmsduIter<'a> {
    /// The cursor of the walk stays within its buffer.
    pub closed spec fn wf(&self) -> bool {
        self.reader.wf()
    }

    /// The bytes not yet consumed.
    pub closed spec fn remaining_spec(&self) -> Seq<u8> {
        self.reader.remaining_spec()
    }

    /// Starts the walk over an A-MSDU body.
    pub fn new(body: &'a [u8]) -> (it: Self)
        ensures
            it.wf(),
            it.remaining_spec() == body@,
    {
        AmsduIter { reader: BufferReader::new(body) }
    }

    /// Yields the next subframe's MSDU, or nothing if no whole subframe
    /// remains; the remaining MSDUs are exactly the modelled rest.
    pub fn next(&mut self) -> (res: Option<Msdu<'a>>)
        requires
            old(self).wf(),
        ensures
            final(self).wf(),
            match res {
                Some(m) => amsdu_subframes(old(self).remaining_spec()).len() >= 1
                    && m.matches(amsdu_subframes(old(self).remaining_spec())[0])
                    && amsdu_subframes(final(self).remaining_spec())
                        == amsdu_subframes(old(self).remaining_spec()).drop_first()
                    && amsdu_subframes(final(self).remaining_spec()).len()
                        == amsdu_subframes(old(self).remaining_spec()).len() - 1,
                None => amsdu_subframes(old(self).remaining_spec()) == Seq::<SpecMsdu>::empty()
                    && *final(self) == *old(self),
            },
    {
        let ghost b = self.reader.remaining_spec();
        let rem = self.reader.bytes_remaining();
        if rem < 14 {
            return None;
        }
        let saved = self.reader;
        let dst_addr = read_mac_addr(&mut self.reader).unwrap();
        let src_addr = read_mac_addr(&mut self.reader).unwrap();
        let len = self.reader.read_u16_be().unwrap() as usize;
        proof {
            assert(dst_addr@ =~= b.subrange(0, 6));
            assert(src_addr@ =~= b.subrange(6, 12));
            assert(len == u16_from_be(b[12], b[13]));
        }
        if len < 8 || self.reader.bytes_remaining() < len {
            self.reader = saved;
            assert(*final(self) == *old(self));
            return None;
        }
        let llc_hdr = LlcHdr::read_from(&mut self.reader).unwrap();
        let payload = self.reader.read_bytes(len - 8).unwrap();
        proof {
            assert(llc_hdr.oui@ =~= b.subrange(14, 22).subrange(3, 6));
            assert(LlcHdr::decodes_from(llc_hdr, b.subrange(14, 22)));
            assert(llc_hdr.protocol_id == u16_from_be(b[20], b[21]));
            assert(payload@ =~= b.subrange(22, 14 + len));
        }
        // skip the padding to the next 4-byte boundary, or end the walk if
        // the padding itself is cut short
        let pad: usize = (4 - ((14 + len) % 4)) % 4;
        if pad > 0 {
            let rem2 = self.reader.bytes_remaining();
            if rem2 < pad {
                let skipped = self.reader.read_bytes(rem2).unwrap();
                assert(final(self).remaining_spec() =~= Seq::<u8>::empty());
            } else {
                let skipped = self.reader.read_bytes(pad).unwrap();
            }
        }
        proof {
            let consumed = round_up4(14 + len);
            if consumed < b.len() {
                assert(final(self).remaining_spec() =~= b.subrange(consumed, b.len() as int));
                assert(amsdu_subframes(b).drop_first() =~= amsdu_subframes(
                    b.subrange(consumed, b.len() as int),
                ));
            } else {
                assert(final(self).remaining_spec() =~= Seq::<u8>::empty());
                assert(amsdu_subframes(b).drop_first() =~= Seq::<SpecMsdu>::empty());
            }
        }
        Some(Msdu { dst_addr, src_addr, llc_hdr, payload })
    }
}

/// Reads the single LLC header and payload of a non-aggregated data body.
pub fn parse_single_llc<'a>(
    dst_addr: MacAddr,
    src_addr: MacAddr,
    body: &'a [u8],
) -> (res: Option<Msdu<'a>>)
    ensures
        match res {
            Some(m) => single_llc_msdu(dst_addr@, src_addr@, body@).len() == 1 && m.matches(
                single_llc_msdu(dst_addr@, src_addr@, body@)[0],
            ),
            None => single_llc_msdu(dst_addr@, src_addr@, body@) == Seq::<SpecMsdu>::empty(),
        },
{
    let mut r = BufferReader::new(body);
    let llc_hdr = match LlcHdr::read_from(&mut r) {
        Some(h) => h,
        None => {
            return None;
        },
    };
    let payload = r.read_rest();
    proof {
        assert(body@.subrange(0, body@.len() as int) =~= body@);
        assert(payload@ =~= body@.subrange(8, body@.len() as int));
    }
    Some(Msdu { dst_addr, src_addr, llc_hdr, payload })
}

/// The maximum size of a reconstructed Ethernet II frame.
pub const MAX_ETH_FRAME_LEN: usize = 2048;

/// A standard Ethernet II frame: destination, source, big-endian ethertype,
/// then the payload, by concatenation.
pub open spec fn eth_frame_bytes(
    dst: Seq<u8>,
    src: Seq<u8>,
    protocol_id: u16,
    body: Seq<u8>,
) -> Seq<u8> {
    dst + src + u16_be_bytes(protocol_id) + body
}

/// Writes an Ethernet II frame; fails without writing anything if the
/// buffer capacity is smaller than header plus payload.
pub fn write_eth_frame(
    w: &mut BufferWriter,
    dst: MacAddr,
    src: MacAddr,
    protocol_id: u16,
    body: &[u8],
) -> (res: Result<(), Error>)
    requires
        old(w).wf(),
    ensures
        final(w).wf(),
        final(w).cap_spec() == old(w).cap_spec(),
        match res {
            Ok(()) => old(w).cap_spec() - old(w).written().len() >= 14 + body@.len()
                && final(w).written() == old(w).written() + eth_frame_bytes(
                    dst@,
                    src@,
                    protocol_id,
                    body@,
                ),
            Err(e) => e == Error::BufferTooSmall
                && old(w).cap_spec() - old(w).written().len() < 14 + body@.len()
                && *final(w) == *old(w),
        },
{
    if body.len() > usize::MAX - 14 || w.remaining_cap() < 14 + body.len() {
        return Err(Error::BufferTooSmall);
    }
    let ghost w0 = *w;
    append_mac_addr(w, &dst);
    append_mac_addr(w, &src);
    w.append_u16_be(protocol_id);
    w.append_bytes(body);
    assert(w.written() =~= w0.written() + eth_frame_bytes(dst@, src@, protocol_id, body@));
    Ok(())
}

} // verus!
