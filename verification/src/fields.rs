//! Information-element field structures: IEEE-numbered bitfields, their
//! sub-range accessors, and byte-exact codecs for the fixed-layout parts.
//!
//! Every bitfield accessor masks and shifts exactly its declared bit range;
//! setters refuse a value wider than the range and leave the backing integer
//! untouched, reserved bits included, so reading and writing a field back is
//! always a no-op on the rest.

use vstd::prelude::*;
use crate::bits::{
    get_bits8, set_bits8, get_bit8, set_bit8, read_bits_u8, write_bits_u8, read_bit_u8,
    write_bit_u8, get_bits16, set_bits16, get_bit16, set_bit16, read_bits_u16, write_bits_u16,
    read_bit_u16, write_bit_u16, get_bits32, set_bits32, get_bit32, set_bit32, read_bits_u32,
    write_bits_u32, read_bit_u32, write_bit_u32, get_bits64, set_bits64, get_bit64, set_bit64,
    read_bits_u64, write_bits_u64, read_bit_u64, write_bit_u64, get_bits128, set_bits128,
    get_bit128, set_bit128, read_bits_u128, write_bits_u128, read_bit_u128, write_bit_u128,
};
use crate::buffer_reader::BufferReader;
use crate::buffer_writer::BufferWriter;
use crate::error::Error;
use crate::mac::{MacAddr, ReasonCode, read_mac_addr, append_mac_addr};
use crate::messages::{compose_message, decimal_chars};
use crate::wire::{
    u16_from_le, u16_le_bytes, u32_from_le, u32_le_bytes, u64_from_le, u64_le_bytes, u128_from_le,
    u128_le_bytes,
};

verus! {

/// IEEE Std 802.11-2016, 9.4.2.3: a rate in 500 kbit/s units, with the basic-rate flag.
#[derive(PartialEq, Eq, Hash, Clone, Copy, Debug)]
pub struct SupportedRate(pub u8);

impl SupportedRate {

    pub fn rate(&self) -> (r: u8)
        ensures
            r == get_bits8(self.0, 0, 0x7f),
    {
        read_bits_u8(self.0, 0, 0x7f)
    }

    pub fn set_rate(&mut self, v: u8) -> (res: Result<(), String>)
        ensures
            (match res {
                Ok(()) => v <= 0x7f
                    && final(self).0 == set_bits8(old(self).0, 0, 0x7f, v),
                Err(m) => v > 0x7f && *final(self) == *old(self)
                    && m@ == "bitfield is only 7 bit wide, "@ + decimal_chars(v as u128)
                        + " invalid"@,
            }),
    {
        if v > 0x7f {
            Err(compose_message("bitfield is only 7 bit wide, ", v as u128, " invalid"))
        } else {
            self.0 = write_bits_u8(self.0, 0, 0x7f, v);
            Ok(())
        }
    }

    pub fn basic(&self) -> (b: bool)
        ensures
            b == get_bit8(self.0, 7),
    {
        read_bit_u8(self.0, 7)
    }

    pub fn set_basic(&mut self, v: bool)
        ensures
            final(self).0 == set_bit8(old(self).0, 7, v),
    {
        self.0 = write_bit_u8(self.0, 7, v);
    }

}

/// IEEE Std 802.11-2016, 9.4.2.4.
#[derive(Clone, Copy, PartialEq, Eq, Hash, Debug)]
pub struct DsssParamSet {
    pub current_chan: u8,
}

impl DsssParamSet {
    /// The exact 1-byte wire image.
    pub open spec fn spec_encode(self) -> Seq<u8> {
        seq![self.current_chan]
    }

    /// Whether this value is what a 1-byte window `b` decodes to.
    pub open spec fn decodes_from(h: Self, b: Seq<u8>) -> bool {
        &&& h.current_chan == b[0]
    }

    /// Reads the structure if at least 1 bytes remain; otherwise leaves
    /// the cursor unmoved.
    pub fn read_from(r: &mut BufferReader) -> (res: Option<Self>)
        requires
            old(r).wf(),
        ensures
            final(r).wf(),
            final(r).bytes() == old(r).bytes(),
            match res {
                Some(h) => old(r).remaining_spec().len() >= 1
                    && Self::decodes_from(h, old(r).remaining_spec().subrange(0, 1))
                    && final(r).pos_spec() == old(r).pos_spec() + 1,
                None => old(r).remaining_spec().len() < 1
                    && final(r).pos_spec() == old(r).pos_spec(),
            },
    {
        if r.bytes_remaining() < 1 {
            return None;
        }
        let ghost r0 = *r;
        let current_chan = r.read_u8().unwrap();
        let h = DsssParamSet { current_chan };
        proof {
            let b = r0.remaining_spec().subrange(0, 1);

            assert(Self::decodes_from(h, b));
        }
        Some(h)
    }

    /// Writes the 1-byte wire image, or fails without writing anything
    /// if the buffer cannot hold it.
    pub fn write_to(&self, w: &mut BufferWriter) -> (res: Result<(), Error>)
        requires
            old(w).wf(),
        ensures
            final(w).wf(),
            final(w).cap_spec() == old(w).cap_spec(),
            match res {
                Ok(()) => old(w).cap_spec() - old(w).written().len() >= 1
                    && final(w).written() == old(w).written() + self.spec_encode(),
                Err(e) => e == Error::BufferTooSmall
                    && old(w).cap_spec() - old(w).written().len() < 1
                    && *final(w) == *old(w),
            },
    {
        if w.remaining_cap() < 1 {
            return Err(Error::BufferTooSmall);
        }
        let ghost w0 = *w;
        w.append_u8(self.current_chan);
        assert(w.written() =~= w0.written() + self.spec_encode());
        Ok(())
    }

    /// Decoding the wire image of a value yields that value and no other:
    /// the encoding is lossless, reserved bits included.
    pub proof fn lemma_roundtrip(self, other: Self)
        requires
            Self::decodes_from(other, self.spec_encode()),
        ensures
            other == self,
    {
        broadcast use vstd::array::group_array_axioms;


    }
}

/// IEEE Std 802.11-2016, 9.2.4.6.
#[derive(PartialEq, Eq, Hash, Clone, Copy, Debug)]
pub struct BitmapControl(pub u8);

impl BitmapControl {

    pub fn group_traffic(&self) -> (b: bool)
        ensures
            b == get_bit8(self.0, 0),
    {
        read_bit_u8(self.0, 0)
    }

    pub fn set_group_traffic(&mut self, v: bool)
        ensures
            final(self).0 == set_bit8(old(self).0, 0, v),
    {
        self.0 = write_bit_u8(self.0, 0, v);
    }

    pub fn offset(&self) -> (r: u8)
        ensures
            r == get_bits8(self.0, 1, 0x7f),
    {
        read_bits_u8(self.0, 1, 0x7f)
    }

    pub fn set_offset(&mut self, v: u8) -> (res: Result<(), String>)
        ensures
            (match res {
                Ok(()) => v <= 0x7f
                    && final(self).0 == set_bits8(old(self).0, 1, 0x7f, v),
                Err(m) => v > 0x7f && *final(self) == *old(self)
                    && m@ == "bitfield is only 7 bit wide, "@ + decimal_chars(v as u128)
                        + " invalid"@,
            }),
    {
        if v > 0x7f {
            Err(compose_message("bitfield is only 7 bit wide, ", v as u128, " invalid"))
        } else {
            self.0 = write_bits_u8(self.0, 1, 0x7f, v);
            Ok(())
        }
    }

}

/// IEEE Std 802.11-2016, 9.4.2.6: the fixed part of the TIM element.
#[derive(Clone, Copy, PartialEq, Eq, Hash, Debug)]
pub struct TimHeader {
    pub dtim_count: u8,
    pub dtim_period: u8,
    pub bmp_ctrl: BitmapControl,
}

impl TimHeader {
    /// The exact 3-byte wire image.
    pub open spec fn spec_encode(self) -> Seq<u8> {
        seq![self.dtim_count]
            + seq![self.dtim_period]
            + seq![self.bmp_ctrl.0]
    }

    /// Whether this value is what a 3-byte window `b` decodes to.
    pub open spec fn decodes_from(h: Self, b: Seq<u8>) -> bool {
        &&& h.dtim_count == b[0]
        &&& h.dtim_period == b[1]
        &&& h.bmp_ctrl.0 == b[2]
    }

    /// Reads the structure if at least 3 bytes remain; otherwise leaves
    /// the cursor unmoved.
    pub fn read_from(r: &mut BufferReader) -> (res: Option<Self>)
        requires
            old(r).wf(),
        ensures
            final(r).wf(),
            final(r).bytes() == old(r).bytes(),
            match res {
                Some(h) => old(r).remaining_spec().len() >= 3
                    && Self::decodes_from(h, old(r).remaining_spec().subrange(0, 3))
                    && final(r).pos_spec() == old(r).pos_spec() + 3,
                None => old(r).remaining_spec().len() < 3
                    && final(r).pos_spec() == old(r).pos_spec(),
            },
    {
        if r.bytes_remaining() < 3 {
            return None;
        }
        let ghost r0 = *r;
        let dtim_count = r.read_u8().unwrap();
        let dtim_period = r.read_u8().unwrap();
        let bmp_ctrl = BitmapControl(r.read_u8().unwrap());
        let h = TimHeader { dtim_count, dtim_period, bmp_ctrl };
        proof {
            let b = r0.remaining_spec().subrange(0, 3);

            assert(Self::decodes_from(h, b));
        }
        Some(h)
    }

    /// Writes the 3-byte wire image, or fails without writing anything
    /// if the buffer cannot hold it.
    pub fn write_to(&self, w: &mut BufferWriter) -> (res: Result<(), Error>)
        requires
            old(w).wf(),
        ensures
            final(w).wf(),
            final(w).cap_spec() == old(w).cap_spec(),
            match res {
                Ok(()) => old(w).cap_spec() - old(w).written().len() >= 3
                    && final(w).written() == old(w).written() + self.spec_encode(),
                Err(e) => e == Error::BufferTooSmall
                    && old(w).cap_spec() - old(w).written().len() < 3
                    && *final(w) == *old(w),
            },
    {
        if w.remaining_cap() < 3 {
            return Err(Error::BufferTooSmall);
        }
        let ghost w0 = *w;
        w.append_u8(self.dtim_count);
        w.append_u8(self.dtim_period);
        w.append_u8(self.bmp_ctrl.0);
        assert(w.written() =~= w0.written() + self.spec_encode());
        Ok(())
    }

    /// Decoding the wire image of a value yields that value and no other:
    /// the encoding is lossless, reserved bits included.
    pub proof fn lemma_roundtrip(self, other: Self)
        requires
            Self::decodes_from(other, self.spec_encode()),
        ensures
            other == self,
    {
        broadcast use vstd::array::group_array_axioms;


    }
}

/// The TIM element: its fixed header and the partial virtual bitmap.
pub struct TimView<'a> {
    pub header: TimHeader,
    pub bitmap: &'a [u8],
}

/// Splits a TIM element body into its header and the trailing bitmap.
pub fn parse_tim(bytes: &[u8]) -> (res: Option<TimView>)
    ensures
        match res {
            Some(v) => bytes@.len() >= 3
                && TimHeader::decodes_from(v.header, bytes@.subrange(0, 3))
                && v.bitmap@ == bytes@.subrange(3, bytes@.len() as int),
            None => bytes@.len() < 3,
        },
{
    let mut r = BufferReader::new(bytes);
    match TimHeader::read_from(&mut r) {
        Some(header) => {
            let bitmap = r.read_rest();
            assert(bitmap@ =~= bytes@.subrange(3, bytes@.len() as int));
            Some(TimView { header, bitmap })
        },
        None => None,
    }
}

/// IEEE Std 802.11-2016, 9.4.2.56: the HT capabilities element body.
#[derive(PartialEq, Eq, Hash, Clone, Copy, Debug)]
pub struct HtCapabilities {
    pub ht_cap_info: HtCapabilityInfo,
    pub ampdu_params: AmpduParams,
    pub mcs_set: SupportedMcsSet,
    pub ht_ext_cap: HtExtCapabilities,
    pub txbf_cap: TxBfCapability,
    pub asel_cap: AselCapability,
}

impl HtCapabilities {
    /// The exact 26-byte wire image.
    pub open spec fn spec_encode(self) -> Seq<u8> {
        u16_le_bytes(self.ht_cap_info.0)
            + seq![self.ampdu_params.0]
            + u128_le_bytes(self.mcs_set.0)
            + u16_le_bytes(self.ht_ext_cap.0)
            + u32_le_bytes(self.txbf_cap.0)
            + seq![self.asel_cap.0]
    }

    /// Whether this value is what a 26-byte window `b` decodes to.
    pub open spec fn decodes_from(h: Self, b: Seq<u8>) -> bool {
        &&& h.ht_cap_info.0 == u16_from_le(b[0], b[1])
        &&& h.ampdu_params.0 == b[2]
        &&& h.mcs_set.0 == u128_from_le(b.subrange(3, 19))
        &&& h.ht_ext_cap.0 == u16_from_le(b[19], b[20])
        &&& h.txbf_cap.0 == u32_from_le(b[21], b[22], b[23], b[24])
        &&& h.asel_cap.0 == b[25]
    }

    /// Reads the structure if at least 26 bytes remain; otherwise leaves
    /// the cursor unmoved.
    pub fn read_from(r: &mut BufferReader) -> (res: Option<Self>)
        requires
            old(r).wf(),
        ensures
            final(r).wf(),
            final(r).bytes() == old(r).bytes(),
            match res {
                Some(h) => old(r).remaining_spec().len() >= 26
                    && Self::decodes_from(h, old(r).remaining_spec().subrange(0, 26))
                    && final(r).pos_spec() == old(r).pos_spec() + 26,
                None => old(r).remaining_spec().len() < 26
                    && final(r).pos_spec() == old(r).pos_spec(),
            },
    {
        if r.bytes_remaining() < 26 {
            return None;
        }
        let ghost r0 = *r;
        let ht_cap_info = HtCapabilityInfo(r.read_u16_le().unwrap());
        let ampdu_params = AmpduParams(r.read_u8().unwrap());
        let mcs_set = SupportedMcsSet(r.read_u128_le().unwrap());
        let ht_ext_cap = HtExtCapabilities(r.read_u16_le().unwrap());
        let txbf_cap = TxBfCapability(r.read_u32_le().unwrap());
        let asel_cap = AselCapability(r.read_u8().unwrap());
        let h = HtCapabilities { ht_cap_info, ampdu_params, mcs_set, ht_ext_cap, txbf_cap, asel_cap };
        proof {
            let b = r0.remaining_spec().subrange(0, 26);
            assert(r0.remaining_spec().subrange(3, 19) =~= b.subrange(3, 19));
            assert(Self::decodes_from(h, b));
        }
        Some(h)
    }

    /// Writes the 26-byte wire image, or fails without writing anything
    /// if the buffer cannot hold it.
    pub fn write_to(&self, w: &mut BufferWriter) -> (res: Result<(), Error>)
        requires
            old(w).wf(),
        ensures
            final(w).wf(),
            final(w).cap_spec() == old(w).cap_spec(),
            match res {
                Ok(()) => old(w).cap_spec() - old(w).written().len() >= 26
                    && final(w).written() == old(w).written() + self.spec_encode(),
                Err(e) => e == Error::BufferTooSmall
                    && old(w).cap_spec() - old(w).written().len() < 26
                    && *final(w) == *old(w),
            },
    {
        if w.remaining_cap() < 26 {
            return Err(Error::BufferTooSmall);
        }
        let ghost w0 = *w;
        w.append_u16_le(self.ht_cap_info.0);
        w.append_u8(self.ampdu_params.0);
        w.append_u128_le(self.mcs_set.0);
        w.append_u16_le(self.ht_ext_cap.0);
        w.append_u32_le(self.txbf_cap.0);
        w.append_u8(self.asel_cap.0);
        assert(w.written() =~= w0.written() + self.spec_encode());
        Ok(())
    }

    /// Decoding the wire image of a value yields that value and no other:
    /// the encoding is lossless, reserved bits included.
    pub proof fn lemma_roundtrip(self, other: Self)
        requires
            Self::decodes_from(other, self.spec_encode()),
        ensures
            other == self,
    {
        broadcast use vstd::array::group_array_axioms;
        crate::wire::lemma_u16_le_roundtrip(self.ht_cap_info.0);
        crate::wire::lemma_u128_le_roundtrip(self.mcs_set.0);
        crate::wire::lemma_u16_le_roundtrip(self.ht_ext_cap.0);
        crate::wire::lemma_u32_le_roundtrip(self.txbf_cap.0);
        assert(self.spec_encode().subrange(3, 19) =~= u128_le_bytes(self.mcs_set.0));
    }
}

/// IEEE Std 802.11-2016, 9.4.2.56.2; bit 13 is reserved.
#[derive(PartialEq, Eq, Hash, Clone, Copy, Debug)]
pub struct HtCapabilityInfo(pub u16);

impl HtCapabilityInfo {

    pub fn ldpc_coding_cap(&self) -> (b: bool)
        ensures
            b == get_bit16(self.0, 0),
    {
        read_bit_u16(self.0, 0)
    }

    pub fn set_ldpc_coding_cap(&mut self, v: bool)
        ensures
            final(self).0 == set_bit16(old(self).0, 0, v),
    {
        self.0 = write_bit_u16(self.0, 0, v);
    }

    pub fn chan_width_set(&self) -> (r: ChanWidthSet)
        ensures
            r.0 == get_bits16(self.0, 1, 0x1) as u8,
    {
        ChanWidthSet(read_bits_u16(self.0, 1, 0x1) as u8)
    }

    pub fn set_chan_width_set(&mut self, v: ChanWidthSet) -> (res: Result<(), String>)
        ensures
            (match res {
                Ok(()) => v.0 <= 0x1
                    && final(self).0 == set_bits16(old(self).0, 1, 0x1, (v.0 as u16)),
                Err(m) => v.0 > 0x1 && *final(self) == *old(self)
                    && m@ == "bitfield is only 1 bit wide, "@ + decimal_chars(v.0 as u128)
                        + " invalid"@,
            }),
    {
        if v.0 > 0x1 {
            Err(compose_message("bitfield is only 1 bit wide, ", v.0 as u128, " invalid"))
        } else {
            self.0 = write_bits_u16(self.0, 1, 0x1, (v.0 as u16));
            Ok(())
        }
    }

    pub fn sm_power_save(&self) -> (r: SmPowerSave)
        ensures
            r.0 == get_bits16(self.0, 2, 0x3) as u8,
    {
        SmPowerSave(read_bits_u16(self.0, 2, 0x3) as u8)
    }

    pub fn set_sm_power_save(&mut self, v: SmPowerSave) -> (res: Result<(), String>)
        ensures
            (match res {
                Ok(()) => v.0 <= 0x3
                    && final(self).0 == set_bits16(old(self).0, 2, 0x3, (v.0 as u16)),
                Err(m) => v.0 > 0x3 && *final(self) == *old(self)
                    && m@ == "bitfield is only 2 bit wide, "@ + decimal_chars(v.0 as u128)
                        + " invalid"@,
            }),
    {
        if v.0 > 0x3 {
            Err(compose_message("bitfield is only 2 bit wide, ", v.0 as u128, " invalid"))
        } else {
            self.0 = write_bits_u16(self.0, 2, 0x3, (v.0 as u16));
            Ok(())
        }
    }

    pub fn greenfield(&self) -> (b: bool)
        ensures
            b == get_bit16(self.0, 4),
    {
        read_bit_u16(self.0, 4)
    }

    pub fn set_greenfield(&mut self, v: bool)
        ensures
            final(self).0 == set_bit16(old(self).0, 4, v),
    {
        self.0 = write_bit_u16(self.0, 4, v);
    }

    pub fn short_gi_20(&self) -> (b: bool)
        ensures
            b == get_bit16(self.0, 5),
    {
        read_bit_u16(self.0, 5)
    }

    pub fn set_short_gi_20(&mut self, v: bool)
        ensures
            final(self).0 == set_bit16(old(self).0, 5, v),
    {
        self.0 = write_bit_u16(self.0, 5, v);
    }

    pub fn short_gi_40(&self) -> (b: bool)
        ensures
            b == get_bit16(self.0, 6),
    {
        read_bit_u16(self.0, 6)
    }

    pub fn set_short_gi_40(&mut self, v: bool)
        ensures
            final(self).0 == set_bit16(old(self).0, 6, v),
    {
        self.0 = write_bit_u16(self.0, 6, v);
    }

    pub fn tx_stbc(&self) -> (b: bool)
        ensures
            b == get_bit16(self.0, 7),
    {
        read_bit_u16(self.0, 7)
    }

    pub fn set_tx_stbc(&mut self, v: bool)
        ensures
            final(self).0 == set_bit16(old(self).0, 7, v),
    {
        self.0 = write_bit_u16(self.0, 7, v);
    }

    pub fn rx_stbc(&self) -> (r: u16)
        ensures
            r == get_bits16(self.0, 8, 0x3),
    {
        read_bits_u16(self.0, 8, 0x3)
    }

    pub fn set_rx_stbc(&mut self, v: u16) -> (res: Result<(), String>)
        ensures
            (match res {
                Ok(()) => v <= 0x3
                    && final(self).0 == set_bits16(old(self).0, 8, 0x3, v),
                Err(m) => v > 0x3 && *final(self) == *old(self)
                    && m@ == "bitfield is only 2 bit wide, "@ + decimal_chars(v as u128)
                        + " invalid"@,
            }),
    {
        if v > 0x3 {
            Err(compose_message("bitfield is only 2 bit wide, ", v as u128, " invalid"))
        } else {
            self.0 = write_bits_u16(self.0, 8, 0x3, v);
            Ok(())
        }
    }

    pub fn delayed_block_ack(&self) -> (b: bool)
        ensures
            b == get_bit16(self.0, 10),
    {
        read_bit_u16(self.0, 10)
    }

    pub fn set_delayed_block_ack(&mut self, v: bool)
        ensures
            final(self).0 == set_bit16(old(self).0, 10, v),
    {
        self.0 = write_bit_u16(self.0, 10, v);
    }

    pub fn max_amsdu_len(&self) -> (r: MaxAmsduLen)
        ensures
            r.0 == get_bits16(self.0, 11, 0x1) as u8,
    {
        MaxAmsduLen(read_bits_u16(self.0, 11, 0x1) as u8)
    }

    pub fn set_max_amsdu_len(&mut self, v: MaxAmsduLen) -> (res: Result<(), String>)
        ensures
            (match res {
                Ok(()) => v.0 <= 0x1
                    && final(self).0 == set_bits16(old(self).0, 11, 0x1, (v.0 as u16)),
                Err(m) => v.0 > 0x1 && *final(self) == *old(self)
                    && m@ == "bitfield is only 1 bit wide, "@ + decimal_chars(v.0 as u128)
                        + " invalid"@,
            }),
    {
        if v.0 > 0x1 {
            Err(compose_message("bitfield is only 1 bit wide, ", v.0 as u128, " invalid"))
        } else {
            self.0 = write_bits_u16(self.0, 11, 0x1, (v.0 as u16));
            Ok(())
        }
    }

    pub fn dsss_in_40(&self) -> (b: bool)
        ensures
            b == get_bit16(self.0, 12),
    {
        read_bit_u16(self.0, 12)
    }

    pub fn set_dsss_in_40(&mut self, v: bool)
        ensures
            final(self).0 == set_bit16(old(self).0, 12, v),
    {
        self.0 = write_bit_u16(self.0, 12, v);
    }

    pub fn intolerant_40(&self) -> (b: bool)
        ensures
            b == get_bit16(self.0, 14),
    {
        read_bit_u16(self.0, 14)
    }

    pub fn set_intolerant_40(&mut self, v: bool)
        ensures
            final(self).0 == set_bit16(old(self).0, 14, v),
    {
        self.0 = write_bit_u16(self.0, 14, v);
    }

    pub fn lsig_txop_protect(&self) -> (b: bool)
        ensures
            b == get_bit16(self.0, 15),
    {
        read_bit_u16(self.0, 15)
    }

    pub fn set_lsig_txop_protect(&mut self, v: bool)
        ensures
            final(self).0 == set_bit16(old(self).0, 15, v),
    {
        self.0 = write_bit_u16(self.0, 15, v);
    }

}

/// Supported channel width set: 0 is 20 MHz only, 1 is 20 and 40 MHz.
#[derive(Debug, PartialOrd, PartialEq, Clone, Copy)]
pub struct ChanWidthSet(pub u8);

/// Spatial multiplexing power save: 0 static, 1 dynamic, 3 disabled.
#[derive(Debug, PartialOrd, PartialEq, Clone, Copy)]
pub struct SmPowerSave(pub u8);

/// Maximum A-MSDU length: 0 is 3839 octets, 1 is 7935 octets.
#[derive(Debug, PartialOrd, PartialEq, Clone, Copy)]
pub struct MaxAmsduLen(pub u8);

/// IEEE Std 802.11-2016, 9.4.2.56.3; bits 5 to 7 are reserved.
#[derive(PartialEq, Eq, Hash, Clone, Copy, Debug)]
pub struct AmpduParams(pub u8);

impl AmpduParams {

    pub fn max_ampdu_exponent(&self) -> (r: MaxAmpduExponent)
        ensures
            r.0 == get_bits8(self.0, 0, 0x3) as u8,
    {
        MaxAmpduExponent(read_bits_u8(self.0, 0, 0x3) as u8)
    }

    pub fn set_max_ampdu_exponent(&mut self, v: MaxAmpduExponent) -> (res: Result<(), String>)
        ensures
            (match res {
                Ok(()) => v.0 <= 0x3
                    && final(self).0 == set_bits8(old(self).0, 0, 0x3, (v.0 as u8)),
                Err(m) => v.0 > 0x3 && *final(self) == *old(self)
                    && m@ == "bitfield is only 2 bit wide, "@ + decimal_chars(v.0 as u128)
                        + " invalid"@,
            }),
    {
        if v.0 > 0x3 {
            Err(compose_message("bitfield is only 2 bit wide, ", v.0 as u128, " invalid"))
        } else {
            self.0 = write_bits_u8(self.0, 0, 0x3, (v.0 as u8));
            Ok(())
        }
    }

    pub fn min_start_spacing(&self) -> (r: MinMpduStartSpacing)
        ensures
            r.0 == get_bits8(self.0, 2, 0x7) as u8,
    {
        MinMpduStartSpacing(read_bits_u8(self.0, 2, 0x7) as u8)
    }

    pub fn set_min_start_spacing(&mut self, v: MinMpduStartSpacing) -> (res: Result<(), String>)
        ensures
            (match res {
                Ok(()) => v.0 <= 0x7
                    && final(self).0 == set_bits8(old(self).0, 2, 0x7, (v.0 as u8)),
                Err(m) => v.0 > 0x7 && *final(self) == *old(self)
                    && m@ == "bitfield is only 3 bit wide, "@ + decimal_chars(v.0 as u128)
                        + " invalid"@,
            }),
    {
        if v.0 > 0x7 {
            Err(compose_message("bitfield is only 3 bit wide, ", v.0 as u128, " invalid"))
        } else {
            self.0 = write_bits_u8(self.0, 2, 0x7, (v.0 as u8));
            Ok(())
        }
    }

}

/// Maximum A-MPDU length exponent; 0 to 3 are valid for HT, 0 to 7 for VHT.
#[derive(Debug, PartialOrd, PartialEq, Clone, Copy)]
pub struct MaxAmpduExponent(pub u8);

impl MaxAmpduExponent {
    /// The maximum A-MPDU length in bytes that the exponent encodes.
    pub fn to_len(&self) -> (r: usize)
        requires
            self.0 <= 7,
        ensures
            r == (1usize << ((13 + self.0) as usize)) - 1,
    {
        let sh: usize = 13 + (self.0 as usize);
        assert(1usize << sh >= 1) by (bit_vector)
            requires
                sh <= 20,
        ;
        (1usize << sh) - 1
    }
}

/// Minimum MPDU start spacing, 0 (none) to 7 (sixteen microseconds).
#[derive(Debug, PartialOrd, PartialEq, Clone, Copy)]
pub struct MinMpduStartSpacing(pub u8);

/// IEEE Std 802.11-2016, 9.4.2.56.4: the 128-bit supported MCS set field.
#[derive(PartialEq, Eq, Hash, Clone, Copy, Debug)]
pub struct SupportedMcsSet(pub u128);

impl SupportedMcsSet {

    pub fn rx_mcs(&self) -> (r: RxMcsBitmask)
        ensures
            r.0 == get_bits128(self.0, 0, 0x1fffffffffffffffffff) as u128,
    {
        RxMcsBitmask(read_bits_u128(self.0, 0, 0x1fffffffffffffffffff) as u128)
    }

    pub fn set_rx_mcs(&mut self, v: RxMcsBitmask) -> (res: Result<(), String>)
        ensures
            (match res {
                Ok(()) => v.0 <= 0x1fffffffffffffffffff
                    && final(self).0 == set_bits128(old(self).0, 0, 0x1fffffffffffffffffff, (v.0 as u128)),
                Err(m) => v.0 > 0x1fffffffffffffffffff && *final(self) == *old(self)
                    && m@ == "bitfield is only 77 bit wide, "@ + decimal_chars(v.0 as u128)
                        + " invalid"@,
            }),
    {
        if v.0 > 0x1fffffffffffffffffff {
            Err(compose_message("bitfield is only 77 bit wide, ", v.0 as u128, " invalid"))
        } else {
            self.0 = write_bits_u128(self.0, 0, 0x1fffffffffffffffffff, (v.0 as u128));
            Ok(())
        }
    }

    pub fn rx_highest_rate(&self) -> (r: u128)
        ensures
            r == get_bits128(self.0, 80, 0x3ff),
    {
        read_bits_u128(self.0, 80, 0x3ff)
    }

    pub fn set_rx_highest_rate(&mut self, v: u128) -> (res: Result<(), String>)
        ensures
            (match res {
                Ok(()) => v <= 0x3ff
                    && final(self).0 == set_bits128(old(self).0, 80, 0x3ff, v),
                Err(m) => v > 0x3ff && *final(self) == *old(self)
                    && m@ == "bitfield is only 10 bit wide, "@ + decimal_chars(v as u128)
                        + " invalid"@,
            }),
    {
        if v > 0x3ff {
            Err(compose_message("bitfield is only 10 bit wide, ", v as u128, " invalid"))
        } else {
            self.0 = write_bits_u128(self.0, 80, 0x3ff, v);
            Ok(())
        }
    }

    pub fn tx_set_defined(&self) -> (b: bool)
        ensures
            b == get_bit128(self.0, 96),
    {
        read_bit_u128(self.0, 96)
    }

    pub fn set_tx_set_defined(&mut self, v: bool)
        ensures
            final(self).0 == set_bit128(old(self).0, 96, v),
    {
        self.0 = write_bit_u128(self.0, 96, v);
    }

    pub fn tx_rx_diff(&self) -> (b: bool)
        ensures
            b == get_bit128(self.0, 97),
    {
        read_bit_u128(self.0, 97)
    }

    pub fn set_tx_rx_diff(&mut self, v: bool)
        ensures
            final(self).0 == set_bit128(old(self).0, 97, v),
    {
        self.0 = write_bit_u128(self.0, 97, v);
    }

    pub fn tx_max_ss(&self) -> (r: NumSpatialStreams)
        ensures
            r.0 == get_bits128(self.0, 98, 0x3) as u8,
    {
        NumSpatialStreams(read_bits_u128(self.0, 98, 0x3) as u8)
    }

    pub fn set_tx_max_ss(&mut self, v: NumSpatialStreams) -> (res: Result<(), String>)
        ensures
            (match res {
                Ok(()) => v.0 <= 0x3
                    && final(self).0 == set_bits128(old(self).0, 98, 0x3, (v.0 as u128)),
                Err(m) => v.0 > 0x3 && *final(self) == *old(self)
                    && m@ == "bitfield is only 2 bit wide, "@ + decimal_chars(v.0 as u128)
                        + " invalid"@,
            }),
    {
        if v.0 > 0x3 {
            Err(compose_message("bitfield is only 2 bit wide, ", v.0 as u128, " invalid"))
        } else {
            self.0 = write_bits_u128(self.0, 98, 0x3, (v.0 as u128));
            Ok(())
        }
    }

    pub fn tx_ueqm(&self) -> (b: bool)
        ensures
            b == get_bit128(self.0, 100),
    {
        read_bit_u128(self.0, 100)
    }

    pub fn set_tx_ueqm(&mut self, v: bool)
        ensures
            final(self).0 == set_bit128(old(self).0, 100, v),
    {
        self.0 = write_bit_u128(self.0, 100, v);
    }

}

/// The receive MCS bitmask of the supported MCS set, one bit per MCS index 0 to 76.
#[derive(Debug, PartialOrd, PartialEq, Clone, Copy)]
pub struct RxMcsBitmask(pub u128);

impl RxMcsBitmask {
    /// Whether the MCS index is within range and its bit is set.
    pub fn support(&self, mcs_index: u8) -> (b: bool)
        ensures
            b == (mcs_index <= 76 && (self.0 & (1u128 << (mcs_index as u128))) != 0),
    {
        mcs_index <= 76 && (self.0 & (1u128 << (mcs_index as u128))) != 0
    }
}

/// A number of spatial streams, stored off by one per IEEE 802.11-2016 Table 9-164.
#[derive(Debug, PartialOrd, PartialEq, Clone, Copy)]
pub struct NumSpatialStreams(pub u8);
impl NumSpatialStreams {
    /// The count itself; the field stores it off by one, 0 meaning 1.
    pub fn to_human(&self) -> (r: u8)
        requires
            self.0 <= 3,
        ensures
            r == self.0 + 1,
    {
        1 + self.0
    }

    /// Accepts a count between 1 and 4 and stores it off by one.
    pub fn from_human(val: u8) -> (res: Result<Self, String>)
        ensures
            (match res {
                Ok(s) => 1 <= val <= 4 && s.0 == val - 1,
                Err(m) => (val == 0 || val > 4)
                    && m@ == "Number of spatial stream must be between 1 and 4. "@
                        + decimal_chars(val as u128) + " is invalid"@,
            }),
    {
        if 1 <= val && val <= 4 {
            Ok(NumSpatialStreams(val - 1))
        } else {
            Err(compose_message(
                "Number of spatial stream must be between 1 and 4. ",
                val as u128,
                " is invalid",
            ))
        }
    }
}

/// IEEE Std 802.11-2016, 9.4.2.56.5; bits 3 to 7 and 12 to 15 are reserved.
#[derive(PartialEq, Eq, Hash, Clone, Copy, Debug)]
pub struct HtExtCapabilities(pub u16);

impl HtExtCapabilities {

    pub fn pco(&self) -> (b: bool)
        ensures
            b == get_bit16(self.0, 0),
    {
        read_bit_u16(self.0, 0)
    }

    pub fn set_pco(&mut self, v: bool)
        ensures
            final(self).0 == set_bit16(old(self).0, 0, v),
    {
        self.0 = write_bit_u16(self.0, 0, v);
    }

    pub fn pco_transition(&self) -> (r: PcoTransitionTime)
        ensures
            r.0 == get_bits16(self.0, 1, 0x3) as u8,
    {
        PcoTransitionTime(read_bits_u16(self.0, 1, 0x3) as u8)
    }

    pub fn set_pco_transition(&mut self, v: PcoTransitionTime) -> (res: Result<(), String>)
        ensures
            (match res {
                Ok(()) => v.0 <= 0x3
                    && final(self).0 == set_bits16(old(self).0, 1, 0x3, (v.0 as u16)),
                Err(m) => v.0 > 0x3 && *final(self) == *old(self)
                    && m@ == "bitfield is only 2 bit wide, "@ + decimal_chars(v.0 as u128)
                        + " invalid"@,
            }),
    {
        if v.0 > 0x3 {
            Err(compose_message("bitfield is only 2 bit wide, ", v.0 as u128, " invalid"))
        } else {
            self.0 = write_bits_u16(self.0, 1, 0x3, (v.0 as u16));
            Ok(())
        }
    }

    pub fn mcs_feedback(&self) -> (r: McsFeedback)
        ensures
            r.0 == get_bits16(self.0, 8, 0x3) as u8,
    {
        McsFeedback(read_bits_u16(self.0, 8, 0x3) as u8)
    }

    pub fn set_mcs_feedback(&mut self, v: McsFeedback) -> (res: Result<(), String>)
        ensures
            (match res {
                Ok(()) => v.0 <= 0x3
                    && final(self).0 == set_bits16(old(self).0, 8, 0x3, (v.0 as u16)),
                Err(m) => v.0 > 0x3 && *final(self) == *old(self)
                    && m@ == "bitfield is only 2 bit wide, "@ + decimal_chars(v.0 as u128)
                        + " invalid"@,
            }),
    {
        if v.0 > 0x3 {
            Err(compose_message("bitfield is only 2 bit wide, ", v.0 as u128, " invalid"))
        } else {
            self.0 = write_bits_u16(self.0, 8, 0x3, (v.0 as u16));
            Ok(())
        }
    }

    pub fn htc_ht_support(&self) -> (b: bool)
        ensures
            b == get_bit16(self.0, 10),
    {
        read_bit_u16(self.0, 10)
    }

    pub fn set_htc_ht_support(&mut self, v: bool)
        ensures
            final(self).0 == set_bit16(old(self).0, 10, v),
    {
        self.0 = write_bit_u16(self.0, 10, v);
    }

    pub fn rd_responder(&self) -> (b: bool)
        ensures
            b == get_bit16(self.0, 11),
    {
        read_bit_u16(self.0, 11)
    }

    pub fn set_rd_responder(&mut self, v: bool)
        ensures
            final(self).0 == set_bit16(old(self).0, 11, v),
    {
        self.0 = write_bit_u16(self.0, 11, v);
    }

}

/// PCO transition time: 0 reserved, 1 is 400, 2 is 1500, 3 is 5000 microseconds.
#[derive(Debug, PartialOrd, PartialEq, Clone, Copy)]
pub struct PcoTransitionTime(pub u8);

/// MCS feedback: 0 none, 2 unsolicited, 3 both.
#[derive(Debug, PartialOrd, PartialEq, Clone, Copy)]
pub struct McsFeedback(pub u8);

/// IEEE Std 802.11-2016, 9.4.2.56.6: the transmit beamforming capability field.
#[derive(PartialEq, Eq, Hash, Clone, Copy, Debug)]
pub struct TxBfCapability(pub u32);

impl TxBfCapability {

    pub fn implicit_rx(&self) -> (b: bool)
        ensures
            b == get_bit32(self.0, 0),
    {
        read_bit_u32(self.0, 0)
    }

    pub fn set_implicit_rx(&mut self, v: bool)
        ensures
            final(self).0 == set_bit32(old(self).0, 0, v),
    {
        self.0 = write_bit_u32(self.0, 0, v);
    }

    pub fn rx_stag_sounding(&self) -> (b: bool)
        ensures
            b == get_bit32(self.0, 1),
    {
        read_bit_u32(self.0, 1)
    }

    pub fn set_rx_stag_sounding(&mut self, v: bool)
        ensures
            final(self).0 == set_bit32(old(self).0, 1, v),
    {
        self.0 = write_bit_u32(self.0, 1, v);
    }

    pub fn tx_stag_sounding(&self) -> (b: bool)
        ensures
            b == get_bit32(self.0, 2),
    {
        read_bit_u32(self.0, 2)
    }

    pub fn set_tx_stag_sounding(&mut self, v: bool)
        ensures
            final(self).0 == set_bit32(old(self).0, 2, v),
    {
        self.0 = write_bit_u32(self.0, 2, v);
    }

    pub fn rx_ndp(&self) -> (b: bool)
        ensures
            b == get_bit32(self.0, 3),
    {
        read_bit_u32(self.0, 3)
    }

    pub fn set_rx_ndp(&mut self, v: bool)
        ensures
            final(self).0 == set_bit32(old(self).0, 3, v),
    {
        self.0 = write_bit_u32(self.0, 3, v);
    }

    pub fn tx_ndp(&self) -> (b: bool)
        ensures
            b == get_bit32(self.0, 4),
    {
        read_bit_u32(self.0, 4)
    }

    pub fn set_tx_ndp(&mut self, v: bool)
        ensures
            final(self).0 == set_bit32(old(self).0, 4, v),
    {
        self.0 = write_bit_u32(self.0, 4, v);
    }

    pub fn implicit(&self) -> (b: bool)
        ensures
            b == get_bit32(self.0, 5),
    {
        read_bit_u32(self.0, 5)
    }

    pub fn set_implicit(&mut self, v: bool)
        ensures
            final(self).0 == set_bit32(old(self).0, 5, v),
    {
        self.0 = write_bit_u32(self.0, 5, v);
    }

    pub fn calibration(&self) -> (r: Calibration)
        ensures
            r.0 == get_bits32(self.0, 6, 0x3) as u8,
    {
        Calibration(read_bits_u32(self.0, 6, 0x3) as u8)
    }

    pub fn set_calibration(&mut self, v: Calibration) -> (res: Result<(), String>)
        ensures
            (match res {
                Ok(()) => v.0 <= 0x3
                    && final(self).0 == set_bits32(old(self).0, 6, 0x3, (v.0 as u32)),
                Err(m) => v.0 > 0x3 && *final(self) == *old(self)
                    && m@ == "bitfield is only 2 bit wide, "@ + decimal_chars(v.0 as u128)
                        + " invalid"@,
            }),
    {
        if v.0 > 0x3 {
            Err(compose_message("bitfield is only 2 bit wide, ", v.0 as u128, " invalid"))
        } else {
            self.0 = write_bits_u32(self.0, 6, 0x3, (v.0 as u32));
            Ok(())
        }
    }

    pub fn csi(&self) -> (b: bool)
        ensures
            b == get_bit32(self.0, 8),
    {
        read_bit_u32(self.0, 8)
    }

    pub fn set_csi(&mut self, v: bool)
        ensures
            final(self).0 == set_bit32(old(self).0, 8, v),
    {
        self.0 = write_bit_u32(self.0, 8, v);
    }

    pub fn noncomp_steering(&self) -> (b: bool)
        ensures
            b == get_bit32(self.0, 9),
    {
        read_bit_u32(self.0, 9)
    }

    pub fn set_noncomp_steering(&mut self, v: bool)
        ensures
            final(self).0 == set_bit32(old(self).0, 9, v),
    {
        self.0 = write_bit_u32(self.0, 9, v);
    }

    pub fn comp_steering(&self) -> (b: bool)
        ensures
            b == get_bit32(self.0, 10),
    {
        read_bit_u32(self.0, 10)
    }

    pub fn set_comp_steering(&mut self, v: bool)
        ensures
            final(self).0 == set_bit32(old(self).0, 10, v),
    {
        self.0 = write_bit_u32(self.0, 10, v);
    }

    pub fn csi_feedback(&self) -> (r: Feedback)
        ensures
            r.0 == get_bits32(self.0, 11, 0x3) as u8,
    {
        Feedback(read_bits_u32(self.0, 11, 0x3) as u8)
    }

    pub fn set_csi_feedback(&mut self, v: Feedback) -> (res: Result<(), String>)
        ensures
            (match res {
                Ok(()) => v.0 <= 0x3
                    && final(self).0 == set_bits32(old(self).0, 11, 0x3, (v.0 as u32)),
                Err(m) => v.0 > 0x3 && *final(self) == *old(self)
                    && m@ == "bitfield is only 2 bit wide, "@ + decimal_chars(v.0 as u128)
                        + " invalid"@,
            }),
    {
        if v.0 > 0x3 {
            Err(compose_message("bitfield is only 2 bit wide, ", v.0 as u128, " invalid"))
        } else {
            self.0 = write_bits_u32(self.0, 11, 0x3, (v.0 as u32));
            Ok(())
        }
    }

    pub fn noncomp_feedback(&self) -> (r: Feedback)
        ensures
            r.0 == get_bits32(self.0, 13, 0x3) as u8,
    {
        Feedback(read_bits_u32(self.0, 13, 0x3) as u8)
    }

    pub fn set_noncomp_feedback(&mut self, v: Feedback) -> (res: Result<(), String>)
        ensures
            (match res {
                Ok(()) => v.0 <= 0x3
                    && final(self).0 == set_bits32(old(self).0, 13, 0x3, (v.0 as u32)),
                Err(m) => v.0 > 0x3 && *final(self) == *old(self)
                    && m@ == "bitfield is only 2 bit wide, "@ + decimal_chars(v.0 as u128)
                        + " invalid"@,
            }),
    {
        if v.0 > 0x3 {
            Err(compose_message("bitfield is only 2 bit wide, ", v.0 as u128, " invalid"))
        } else {
            self.0 = write_bits_u32(self.0, 13, 0x3, (v.0 as u32));
            Ok(())
        }
    }

    pub fn comp_feedback(&self) -> (r: Feedback)
        ensures
            r.0 == get_bits32(self.0, 15, 0x3) as u8,
    {
        Feedback(read_bits_u32(self.0, 15, 0x3) as u8)
    }

    pub fn set_comp_feedback(&mut self, v: Feedback) -> (res: Result<(), String>)
        ensures
            (match res {
                Ok(()) => v.0 <= 0x3
                    && final(self).0 == set_bits32(old(self).0, 15, 0x3, (v.0 as u32)),
                Err(m) => v.0 > 0x3 && *final(self) == *old(self)
                    && m@ == "bitfield is only 2 bit wide, "@ + decimal_chars(v.0 as u128)
                        + " invalid"@,
            }),
    {
        if v.0 > 0x3 {
            Err(compose_message("bitfield is only 2 bit wide, ", v.0 as u128, " invalid"))
        } else {
            self.0 = write_bits_u32(self.0, 15, 0x3, (v.0 as u32));
            Ok(())
        }
    }

    pub fn min_grouping(&self) -> (r: MinGroup)
        ensures
            r.0 == get_bits32(self.0, 17, 0x3) as u8,
    {
        MinGroup(read_bits_u32(self.0, 17, 0x3) as u8)
    }

    pub fn set_min_grouping(&mut self, v: MinGroup) -> (res: Result<(), String>)
        ensures
            (match res {
                Ok(()) => v.0 <= 0x3
                    && final(self).0 == set_bits32(old(self).0, 17, 0x3, (v.0 as u32)),
                Err(m) => v.0 > 0x3 && *final(self) == *old(self)
                    && m@ == "bitfield is only 2 bit wide, "@ + decimal_chars(v.0 as u128)
                        + " invalid"@,
            }),
    {
        if v.0 > 0x3 {
            Err(compose_message("bitfield is only 2 bit wide, ", v.0 as u128, " invalid"))
        } else {
            self.0 = write_bits_u32(self.0, 17, 0x3, (v.0 as u32));
            Ok(())
        }
    }

    pub fn csi_antennas(&self) -> (r: NumAntennas)
        ensures
            r.0 == get_bits32(self.0, 19, 0x3) as u8,
    {
        NumAntennas(read_bits_u32(self.0, 19, 0x3) as u8)
    }

    pub fn set_csi_antennas(&mut self, v: NumAntennas) -> (res: Result<(), String>)
        ensures
            (match res {
                Ok(()) => v.0 <= 0x3
                    && final(self).0 == set_bits32(old(self).0, 19, 0x3, (v.0 as u32)),
                Err(m) => v.0 > 0x3 && *final(self) == *old(self)
                    && m@ == "bitfield is only 2 bit wide, "@ + decimal_chars(v.0 as u128)
                        + " invalid"@,
            }),
    {
        if v.0 > 0x3 {
            Err(compose_message("bitfield is only 2 bit wide, ", v.0 as u128, " invalid"))
        } else {
            self.0 = write_bits_u32(self.0, 19, 0x3, (v.0 as u32));
            Ok(())
        }
    }

    pub fn noncomp_steering_ants(&self) -> (r: NumAntennas)
        ensures
            r.0 == get_bits32(self.0, 21, 0x3) as u8,
    {
        NumAntennas(read_bits_u32(self.0, 21, 0x3) as u8)
    }

    pub fn set_noncomp_steering_ants(&mut self, v: NumAntennas) -> (res: Result<(), String>)
        ensures
            (match res {
                Ok(()) => v.0 <= 0x3
                    && final(self).0 == set_bits32(old(self).0, 21, 0x3, (v.0 as u32)),
                Err(m) => v.0 > 0x3 && *final(self) == *old(self)
                    && m@ == "bitfield is only 2 bit wide, "@ + decimal_chars(v.0 as u128)
                        + " invalid"@,
            }),
    {
        if v.0 > 0x3 {
            Err(compose_message("bitfield is only 2 bit wide, ", v.0 as u128, " invalid"))
        } else {
            self.0 = write_bits_u32(self.0, 21, 0x3, (v.0 as u32));
            Ok(())
        }
    }

    pub fn comp_steering_ants(&self) -> (r: NumAntennas)
        ensures
            r.0 == get_bits32(self.0, 23, 0x3) as u8,
    {
        NumAntennas(read_bits_u32(self.0, 23, 0x3) as u8)
    }

    pub fn set_comp_steering_ants(&mut self, v: NumAntennas) -> (res: Result<(), String>)
        ensures
            (match res {
                Ok(()) => v.0 <= 0x3
                    && final(self).0 == set_bits32(old(self).0, 23, 0x3, (v.0 as u32)),
                Err(m) => v.0 > 0x3 && *final(self) == *old(self)
                    && m@ == "bitfield is only 2 bit wide, "@ + decimal_chars(v.0 as u128)
                        + " invalid"@,
            }),
    {
        if v.0 > 0x3 {
            Err(compose_message("bitfield is only 2 bit wide, ", v.0 as u128, " invalid"))
        } else {
            self.0 = write_bits_u32(self.0, 23, 0x3, (v.0 as u32));
            Ok(())
        }
    }

    pub fn csi_rows(&self) -> (r: NumCsiRows)
        ensures
            r.0 == get_bits32(self.0, 25, 0x3) as u8,
    {
        NumCsiRows(read_bits_u32(self.0, 25, 0x3) as u8)
    }

    pub fn set_csi_rows(&mut self, v: NumCsiRows) -> (res: Result<(), String>)
        ensures
            (match res {
                Ok(()) => v.0 <= 0x3
                    && final(self).0 == set_bits32(old(self).0, 25, 0x3, (v.0 as u32)),
                Err(m) => v.0 > 0x3 && *final(self) == *old(self)
                    && m@ == "bitfield is only 2 bit wide, "@ + decimal_chars(v.0 as u128)
                        + " invalid"@,
            }),
    {
        if v.0 > 0x3 {
            Err(compose_message("bitfield is only 2 bit wide, ", v.0 as u128, " invalid"))
        } else {
            self.0 = write_bits_u32(self.0, 25, 0x3, (v.0 as u32));
            Ok(())
        }
    }

    pub fn chan_estimation(&self) -> (r: NumSpaceTimeStreams)
        ensures
            r.0 == get_bits32(self.0, 27, 0x3) as u8,
    {
        NumSpaceTimeStreams(read_bits_u32(self.0, 27, 0x3) as u8)
    }

    pub fn set_chan_estimation(&mut self, v: NumSpaceTimeStreams) -> (res: Result<(), String>)
        ensures
            (match res {
                Ok(()) => v.0 <= 0x3
                    && final(self).0 == set_bits32(old(self).0, 27, 0x3, (v.0 as u32)),
                Err(m) => v.0 > 0x3 && *final(self) == *old(self)
                    && m@ == "bitfield is only 2 bit wide, "@ + decimal_chars(v.0 as u128)
                        + " invalid"@,
            }),
    {
        if v.0 > 0x3 {
            Err(compose_message("bitfield is only 2 bit wide, ", v.0 as u128, " invalid"))
        } else {
            self.0 = write_bits_u32(self.0, 27, 0x3, (v.0 as u32));
            Ok(())
        }
    }

}

/// Calibration: 0 none, 1 respond but not initiate, 3 respond and initiate.
#[derive(Debug, PartialOrd, PartialEq, Clone, Copy)]
pub struct Calibration(pub u8);

/// Feedback kind: 0 none, 1 delayed, 2 immediate, 3 delayed and immediate.
#[derive(Debug, PartialOrd, PartialEq, Clone, Copy)]
pub struct Feedback(pub u8);

/// Minimal grouping: 0 one (no grouping), 1 two, 2 four, 3 two and four.
#[derive(Debug, PartialOrd, PartialEq, Clone, Copy)]
pub struct MinGroup(pub u8);

/// A number of antennas, stored off by one per IEEE 802.11-2016 Table 9-166.
#[derive(Debug, PartialOrd, PartialEq, Clone, Copy)]
pub struct NumAntennas(pub u8);
impl NumAntennas {
    /// The count itself; the field stores it off by one, 0 meaning 1.
    pub fn to_human(&self) -> (r: u8)
        requires
            self.0 <= 3,
        ensures
            r == self.0 + 1,
    {
        1 + self.0
    }

    /// Accepts a count between 1 and 4 and stores it off by one.
    pub fn from_human(val: u8) -> (res: Result<Self, String>)
        ensures
            (match res {
                Ok(s) => 1 <= val <= 4 && s.0 == val - 1,
                Err(m) => (val == 0 || val > 4)
                    && m@ == "Number of antennas must be between 1 and 4. "@
                        + decimal_chars(val as u128) + " is invalid"@,
            }),
    {
        if 1 <= val && val <= 4 {
            Ok(NumAntennas(val - 1))
        } else {
            Err(compose_message(
                "Number of antennas must be between 1 and 4. ",
                val as u128,
                " is invalid",
            ))
        }
    }
}

/// A number of CSI rows, stored off by one per IEEE 802.11-2016 Table 9-166.
#[derive(Debug, PartialOrd, PartialEq, Clone, Copy)]
pub struct NumCsiRows(pub u8);
impl NumCsiRows {
    /// The count itself; the field stores it off by one, 0 meaning 1.
    pub fn to_human(&self) -> (r: u8)
        requires
            self.0 <= 3,
        ensures
            r == self.0 + 1,
    {
        1 + self.0
    }

    /// Accepts a count between 1 and 4 and stores it off by one.
    pub fn from_human(val: u8) -> (res: Result<Self, String>)
        ensures
            (match res {
                Ok(s) => 1 <= val <= 4 && s.0 == val - 1,
                Err(m) => (val == 0 || val > 4)
                    && m@ == "Number of csi rows must be between 1 and 4. "@
                        + decimal_chars(val as u128) + " is invalid"@,
            }),
    {
        if 1 <= val && val <= 4 {
            Ok(NumCsiRows(val - 1))
        } else {
            Err(compose_message(
                "Number of csi rows must be between 1 and 4. ",
                val as u128,
                " is invalid",
            ))
        }
    }
}

/// A number of space-time streams, stored off by one per IEEE 802.11-2016 Table 9-166.
#[derive(Debug, PartialOrd, PartialEq, Clone, Copy)]
pub struct NumSpaceTimeStreams(pub u8);
impl NumSpaceTimeStreams {
    /// The count itself; the field stores it off by one, 0 meaning 1.
    pub fn to_human(&self) -> (r: u8)
        requires
            self.0 <= 3,
        ensures
            r == self.0 + 1,
    {
        1 + self.0
    }

    /// Accepts a count between 1 and 4 and stores it off by one.
    pub fn from_human(val: u8) -> (res: Result<Self, String>)
        ensures
            (match res {
                Ok(s) => 1 <= val <= 4 && s.0 == val - 1,
                Err(m) => (val == 0 || val > 4)
                    && m@ == "Number of channel estimation must be between 1 and 4. "@
                        + decimal_chars(val as u128) + " is invalid"@,
            }),
    {
        if 1 <= val && val <= 4 {
            Ok(NumSpaceTimeStreams(val - 1))
        } else {
            Err(compose_message(
                "Number of channel estimation must be between 1 and 4. ",
                val as u128,
                " is invalid",
            ))
        }
    }
}

/// IEEE Std 802.11-2016, 9.4.2.56.6: the antenna selection capability field; bit 7 is reserved.
#[derive(PartialEq, Eq, Hash, Clone, Copy, Debug)]
pub struct AselCapability(pub u8);

impl AselCapability {

    pub fn asel(&self) -> (b: bool)
        ensures
            b == get_bit8(self.0, 0),
    {
        read_bit_u8(self.0, 0)
    }

    pub fn set_asel(&mut self, v: bool)
        ensures
            final(self).0 == set_bit8(old(self).0, 0, v),
    {
        self.0 = write_bit_u8(self.0, 0, v);
    }

    pub fn csi_feedback_tx_asel(&self) -> (b: bool)
        ensures
            b == get_bit8(self.0, 1),
    {
        read_bit_u8(self.0, 1)
    }

    pub fn set_csi_feedback_tx_asel(&mut self, v: bool)
        ensures
            final(self).0 == set_bit8(old(self).0, 1, v),
    {
        self.0 = write_bit_u8(self.0, 1, v);
    }

    pub fn ant_idx_feedback_tx_asel(&self) -> (b: bool)
        ensures
            b == get_bit8(self.0, 2),
    {
        read_bit_u8(self.0, 2)
    }

    pub fn set_ant_idx_feedback_tx_asel(&mut self, v: bool)
        ensures
            final(self).0 == set_bit8(old(self).0, 2, v),
    {
        self.0 = write_bit_u8(self.0, 2, v);
    }

    pub fn explicit_csi_feedback(&self) -> (b: bool)
        ensures
            b == get_bit8(self.0, 3),
    {
        read_bit_u8(self.0, 3)
    }

    pub fn set_explicit_csi_feedback(&mut self, v: bool)
        ensures
            final(self).0 == set_bit8(old(self).0, 3, v),
    {
        self.0 = write_bit_u8(self.0, 3, v);
    }

    pub fn antenna_idx_feedback(&self) -> (b: bool)
        ensures
            b == get_bit8(self.0, 4),
    {
        read_bit_u8(self.0, 4)
    }

    pub fn set_antenna_idx_feedback(&mut self, v: bool)
        ensures
            final(self).0 == set_bit8(old(self).0, 4, v),
    {
        self.0 = write_bit_u8(self.0, 4, v);
    }

    pub fn rx_asel(&self) -> (b: bool)
        ensures
            b == get_bit8(self.0, 5),
    {
        read_bit_u8(self.0, 5)
    }

    pub fn set_rx_asel(&mut self, v: bool)
        ensures
            final(self).0 == set_bit8(old(self).0, 5, v),
    {
        self.0 = write_bit_u8(self.0, 5, v);
    }

    pub fn tx_sounding_ppdu(&self) -> (b: bool)
        ensures
            b == get_bit8(self.0, 6),
    {
        read_bit_u8(self.0, 6)
    }

    pub fn set_tx_sounding_ppdu(&mut self, v: bool)
        ensures
            final(self).0 == set_bit8(old(self).0, 6, v),
    {
        self.0 = write_bit_u8(self.0, 6, v);
    }

}

/// IEEE Std 802.11-2016, 9.4.2.57: the HT operation element body; the 40-bit HT operation information field is split into its first byte and the remaining four.
#[derive(PartialEq, Eq, Hash, Clone, Copy, Debug)]
pub struct HtOperation {
    pub primary_chan: u8,
    pub ht_op_info_head: HtOpInfoHead,
    pub ht_op_info_tail: HtOpInfoTail,
    pub basic_ht_mcs_set: SupportedMcsSet,
}

impl HtOperation {
    /// The exact 22-byte wire image.
    pub open spec fn spec_encode(self) -> Seq<u8> {
        seq![self.primary_chan]
            + seq![self.ht_op_info_head.0]
            + u32_le_bytes(self.ht_op_info_tail.0)
            + u128_le_bytes(self.basic_ht_mcs_set.0)
    }

    /// Whether this value is what a 22-byte window `b` decodes to.
    pub open spec fn decodes_from(h: Self, b: Seq<u8>) -> bool {
        &&& h.primary_chan == b[0]
        &&& h.ht_op_info_head.0 == b[1]
        &&& h.ht_op_info_tail.0 == u32_from_le(b[2], b[3], b[4], b[5])
        &&& h.basic_ht_mcs_set.0 == u128_from_le(b.subrange(6, 22))
    }

    /// Reads the structure if at least 22 bytes remain; otherwise leaves
    /// the cursor unmoved.
    pub fn read_from(r: &mut BufferReader) -> (res: Option<Self>)
        requires
            old(r).wf(),
        ensures
            final(r).wf(),
            final(r).bytes() == old(r).bytes(),
            match res {
                Some(h) => old(r).remaining_spec().len() >= 22
                    && Self::decodes_from(h, old(r).remaining_spec().subrange(0, 22))
                    && final(r).pos_spec() == old(r).pos_spec() + 22,
                None => old(r).remaining_spec().len() < 22
                    && final(r).pos_spec() == old(r).pos_spec(),
            },
    {
        if r.bytes_remaining() < 22 {
            return None;
        }
        let ghost r0 = *r;
        let primary_chan = r.read_u8().unwrap();
        let ht_op_info_head = HtOpInfoHead(r.read_u8().unwrap());
        let ht_op_info_tail = HtOpInfoTail(r.read_u32_le().unwrap());
        let basic_ht_mcs_set = SupportedMcsSet(r.read_u128_le().unwrap());
        let h = HtOperation { primary_chan, ht_op_info_head, ht_op_info_tail, basic_ht_mcs_set };
        proof {
            let b = r0.remaining_spec().subrange(0, 22);
            assert(r0.remaining_spec().subrange(6, 22) =~= b.subrange(6, 22));
            assert(Self::decodes_from(h, b));
        }
        Some(h)
    }

    /// Writes the 22-byte wire image, or fails without writing anything
    /// if the buffer cannot hold it.
    pub fn write_to(&self, w: &mut BufferWriter) -> (res: Result<(), Error>)
        requires
            old(w).wf(),
        ensures
            final(w).wf(),
            final(w).cap_spec() == old(w).cap_spec(),
            match res {
                Ok(()) => old(w).cap_spec() - old(w).written().len() >= 22
                    && final(w).written() == old(w).written() + self.spec_encode(),
                Err(e) => e == Error::BufferTooSmall
                    && old(w).cap_spec() - old(w).written().len() < 22
                    && *final(w) == *old(w),
            },
    {
        if w.remaining_cap() < 22 {
            return Err(Error::BufferTooSmall);
        }
        let ghost w0 = *w;
        w.append_u8(self.primary_chan);
        w.append_u8(self.ht_op_info_head.0);
        w.append_u32_le(self.ht_op_info_tail.0);
        w.append_u128_le(self.basic_ht_mcs_set.0);
        assert(w.written() =~= w0.written() + self.spec_encode());
        Ok(())
    }

    /// Decoding the wire image of a value yields that value and no other:
    /// the encoding is lossless, reserved bits included.
    pub proof fn lemma_roundtrip(self, other: Self)
        requires
            Self::decodes_from(other, self.spec_encode()),
        ensures
            other == self,
    {
        broadcast use vstd::array::group_array_axioms;
        crate::wire::lemma_u32_le_roundtrip(self.ht_op_info_tail.0);
        crate::wire::lemma_u128_le_roundtrip(self.basic_ht_mcs_set.0);
        assert(self.spec_encode().subrange(6, 22) =~= u128_le_bytes(self.basic_ht_mcs_set.0));
    }
}

/// IEEE Std 802.11-2016, Figure 9-339: the first byte of the HT operation information field; bits 4 to 7 are reserved.
#[derive(PartialEq, Eq, Hash, Clone, Copy, Debug)]
pub struct HtOpInfoHead(pub u8);

impl HtOpInfoHead {

    pub fn secondary_chan_offset(&self) -> (r: SecChanOffset)
        ensures
            r.0 == get_bits8(self.0, 0, 0x3) as u8,
    {
        SecChanOffset(read_bits_u8(self.0, 0, 0x3) as u8)
    }

    pub fn set_secondary_chan_offset(&mut self, v: SecChanOffset) -> (res: Result<(), String>)
        ensures
            (match res {
                Ok(()) => v.0 <= 0x3
                    && final(self).0 == set_bits8(old(self).0, 0, 0x3, (v.0 as u8)),
                Err(m) => v.0 > 0x3 && *final(self) == *old(self)
                    && m@ == "bitfield is only 2 bit wide, "@ + decimal_chars(v.0 as u128)
                        + " invalid"@,
            }),
    {
        if v.0 > 0x3 {
            Err(compose_message("bitfield is only 2 bit wide, ", v.0 as u128, " invalid"))
        } else {
            self.0 = write_bits_u8(self.0, 0, 0x3, (v.0 as u8));
            Ok(())
        }
    }

    pub fn sta_chan_width(&self) -> (r: StaChanWidth)
        ensures
            r.0 == get_bits8(self.0, 2, 0x1) as u8,
    {
        StaChanWidth(read_bits_u8(self.0, 2, 0x1) as u8)
    }

    pub fn set_sta_chan_width(&mut self, v: StaChanWidth) -> (res: Result<(), String>)
        ensures
            (match res {
                Ok(()) => v.0 <= 0x1
                    && final(self).0 == set_bits8(old(self).0, 2, 0x1, (v.0 as u8)),
                Err(m) => v.0 > 0x1 && *final(self) == *old(self)
                    && m@ == "bitfield is only 1 bit wide, "@ + decimal_chars(v.0 as u128)
                        + " invalid"@,
            }),
    {
        if v.0 > 0x1 {
            Err(compose_message("bitfield is only 1 bit wide, ", v.0 as u128, " invalid"))
        } else {
            self.0 = write_bits_u8(self.0, 2, 0x1, (v.0 as u8));
            Ok(())
        }
    }

    pub fn rifs_mode_permitted(&self) -> (b: bool)
        ensures
            b == get_bit8(self.0, 3),
    {
        read_bit_u8(self.0, 3)
    }

    pub fn set_rifs_mode_permitted(&mut self, v: bool)
        ensures
            final(self).0 == set_bit8(old(self).0, 3, v),
    {
        self.0 = write_bit_u8(self.0, 3, v);
    }

}

/// Secondary channel offset: 0 none, 1 above the primary channel, 3 below it.
#[derive(Debug, PartialOrd, PartialEq, Clone, Copy)]
pub struct SecChanOffset(pub u8);

/// Station channel width: 0 is 20 MHz, 1 is any supported width.
#[derive(Debug, PartialOrd, PartialEq, Clone, Copy)]
pub struct StaChanWidth(pub u8);

/// IEEE Std 802.11-2016, Figure 9-339, continued: the last four bytes of the HT operation information field; the channel number of the second segment of an 80+80 MHz channel sits in bits 5 to 12.
#[derive(PartialEq, Eq, Hash, Clone, Copy, Debug)]
pub struct HtOpInfoTail(pub u32);

impl HtOpInfoTail {

    pub fn ht_protection(&self) -> (r: HtProtection)
        ensures
            r.0 == get_bits32(self.0, 0, 0x3) as u8,
    {
        HtProtection(read_bits_u32(self.0, 0, 0x3) as u8)
    }

    pub fn set_ht_protection(&mut self, v: HtProtection) -> (res: Result<(), String>)
        ensures
            (match res {
                Ok(()) => v.0 <= 0x3
                    && final(self).0 == set_bits32(old(self).0, 0, 0x3, (v.0 as u32)),
                Err(m) => v.0 > 0x3 && *final(self) == *old(self)
                    && m@ == "bitfield is only 2 bit wide, "@ + decimal_chars(v.0 as u128)
                        + " invalid"@,
            }),
    {
        if v.0 > 0x3 {
            Err(compose_message("bitfield is only 2 bit wide, ", v.0 as u128, " invalid"))
        } else {
            self.0 = write_bits_u32(self.0, 0, 0x3, (v.0 as u32));
            Ok(())
        }
    }

    pub fn nongreenfield_present(&self) -> (b: bool)
        ensures
            b == get_bit32(self.0, 2),
    {
        read_bit_u32(self.0, 2)
    }

    pub fn set_nongreenfield_present(&mut self, v: bool)
        ensures
            final(self).0 == set_bit32(old(self).0, 2, v),
    {
        self.0 = write_bit_u32(self.0, 2, v);
    }

    pub fn obss_non_ht_stas_present(&self) -> (b: bool)
        ensures
            b == get_bit32(self.0, 4),
    {
        read_bit_u32(self.0, 4)
    }

    pub fn set_obss_non_ht_stas_present(&mut self, v: bool)
        ensures
            final(self).0 == set_bit32(old(self).0, 4, v),
    {
        self.0 = write_bit_u32(self.0, 4, v);
    }

    pub fn center_freq_seg2(&self) -> (r: u32)
        ensures
            r == get_bits32(self.0, 5, 0xff),
    {
        read_bits_u32(self.0, 5, 0xff)
    }

    pub fn set_center_freq_seg2(&mut self, v: u32) -> (res: Result<(), String>)
        ensures
            (match res {
                Ok(()) => v <= 0xff
                    && final(self).0 == set_bits32(old(self).0, 5, 0xff, v),
                Err(m) => v > 0xff && *final(self) == *old(self)
                    && m@ == "bitfield is only 8 bit wide, "@ + decimal_chars(v as u128)
                        + " invalid"@,
            }),
    {
        if v > 0xff {
            Err(compose_message("bitfield is only 8 bit wide, ", v as u128, " invalid"))
        } else {
            self.0 = write_bits_u32(self.0, 5, 0xff, v);
            Ok(())
        }
    }

    pub fn dual_beacon(&self) -> (b: bool)
        ensures
            b == get_bit32(self.0, 22),
    {
        read_bit_u32(self.0, 22)
    }

    pub fn set_dual_beacon(&mut self, v: bool)
        ensures
            final(self).0 == set_bit32(old(self).0, 22, v),
    {
        self.0 = write_bit_u32(self.0, 22, v);
    }

    pub fn dual_cts_protection(&self) -> (b: bool)
        ensures
            b == get_bit32(self.0, 23),
    {
        read_bit_u32(self.0, 23)
    }

    pub fn set_dual_cts_protection(&mut self, v: bool)
        ensures
            final(self).0 == set_bit32(old(self).0, 23, v),
    {
        self.0 = write_bit_u32(self.0, 23, v);
    }

    pub fn stbc_beacon(&self) -> (b: bool)
        ensures
            b == get_bit32(self.0, 24),
    {
        read_bit_u32(self.0, 24)
    }

    pub fn set_stbc_beacon(&mut self, v: bool)
        ensures
            final(self).0 == set_bit32(old(self).0, 24, v),
    {
        self.0 = write_bit_u32(self.0, 24, v);
    }

    pub fn lsig_txop_protection(&self) -> (b: bool)
        ensures
            b == get_bit32(self.0, 25),
    {
        read_bit_u32(self.0, 25)
    }

    pub fn set_lsig_txop_protection(&mut self, v: bool)
        ensures
            final(self).0 == set_bit32(old(self).0, 25, v),
    {
        self.0 = write_bit_u32(self.0, 25, v);
    }

    pub fn pco_active(&self) -> (b: bool)
        ensures
            b == get_bit32(self.0, 26),
    {
        read_bit_u32(self.0, 26)
    }

    pub fn set_pco_active(&mut self, v: bool)
        ensures
            final(self).0 == set_bit32(old(self).0, 26, v),
    {
        self.0 = write_bit_u32(self.0, 26, v);
    }

    pub fn pco_phase(&self) -> (r: PcoPhase)
        ensures
            r.0 == get_bits32(self.0, 27, 0x1) as u8,
    {
        PcoPhase(read_bits_u32(self.0, 27, 0x1) as u8)
    }

    pub fn set_pco_phase(&mut self, v: PcoPhase) -> (res: Result<(), String>)
        ensures
            (match res {
                Ok(()) => v.0 <= 0x1
                    && final(self).0 == set_bits32(old(self).0, 27, 0x1, (v.0 as u32)),
                Err(m) => v.0 > 0x1 && *final(self) == *old(self)
                    && m@ == "bitfield is only 1 bit wide, "@ + decimal_chars(v.0 as u128)
                        + " invalid"@,
            }),
    {
        if v.0 > 0x1 {
            Err(compose_message("bitfield is only 1 bit wide, ", v.0 as u128, " invalid"))
        } else {
            self.0 = write_bits_u32(self.0, 27, 0x1, (v.0 as u32));
            Ok(())
        }
    }

}

/// HT protection: 0 none, 1 nonmember, 2 twenty MHz, 3 non-HT mixed.
#[derive(Debug, PartialOrd, PartialEq, Clone, Copy)]
pub struct HtProtection(pub u8);

/// PCO phase: 0 is 20 MHz, 1 is 40 MHz.
#[derive(Debug, PartialOrd, PartialEq, Clone, Copy)]
pub struct PcoPhase(pub u8);

/// IEEE Std 802.11-2016, 9.4.2.102, Table 9-222: 0 MPM, 1 AMPE, 255 vendor specific.
#[derive(PartialEq, Eq, Clone, Copy, Debug)]
pub struct MpmProtocol(pub u16);

/// IEEE Std 802.11-2016, 9.4.2.102: the fixed part of the mesh peering management element.
#[derive(Clone, Copy, Debug, PartialEq, Eq)]
pub struct MpmHeader {
    pub protocol: MpmProtocol,
    pub local_link_id: u16,
}

impl MpmHeader {
    /// The exact 4-byte wire image.
    pub open spec fn spec_encode(self) -> Seq<u8> {
        u16_le_bytes(self.protocol.0)
            + u16_le_bytes(self.local_link_id)
    }

    /// Whether this value is what a 4-byte window `b` decodes to.
    pub open spec fn decodes_from(h: Self, b: Seq<u8>) -> bool {
        &&& h.protocol.0 == u16_from_le(b[0], b[1])
        &&& h.local_link_id == u16_from_le(b[2], b[3])
    }

    /// Reads the structure if at least 4 bytes remain; otherwise leaves
    /// the cursor unmoved.
    pub fn read_from(r: &mut BufferReader) -> (res: Option<Self>)
        requires
            old(r).wf(),
        ensures
            final(r).wf(),
            final(r).bytes() == old(r).bytes(),
            match res {
                Some(h) => old(r).remaining_spec().len() >= 4
                    && Self::decodes_from(h, old(r).remaining_spec().subrange(0, 4))
                    && final(r).pos_spec() == old(r).pos_spec() + 4,
                None => old(r).remaining_spec().len() < 4
                    && final(r).pos_spec() == old(r).pos_spec(),
            },
    {
        if r.bytes_remaining() < 4 {
            return None;
        }
        let ghost r0 = *r;
        let protocol = MpmProtocol(r.read_u16_le().unwrap());
        let local_link_id = r.read_u16_le().unwrap();
        let h = MpmHeader { protocol, local_link_id };
        proof {
            let b = r0.remaining_spec().subrange(0, 4);

            assert(Self::decodes_from(h, b));
        }
        Some(h)
    }

    /// Writes the 4-byte wire image, or fails without writing anything
    /// if the buffer cannot hold it.
    pub fn write_to(&self, w: &mut BufferWriter) -> (res: Result<(), Error>)
        requires
            old(w).wf(),
        ensures
            final(w).wf(),
            final(w).cap_spec() == old(w).cap_spec(),
            match res {
                Ok(()) => old(w).cap_spec() - old(w).written().len() >= 4
                    && final(w).written() == old(w).written() + self.spec_encode(),
                Err(e) => e == Error::BufferTooSmall
                    && old(w).cap_spec() - old(w).written().len() < 4
                    && *final(w) == *old(w),
            },
    {
        if w.remaining_cap() < 4 {
            return Err(Error::BufferTooSmall);
        }
        let ghost w0 = *w;
        w.append_u16_le(self.protocol.0);
        w.append_u16_le(self.local_link_id);
        assert(w.written() =~= w0.written() + self.spec_encode());
        Ok(())
    }

    /// Decoding the wire image of a value yields that value and no other:
    /// the encoding is lossless, reserved bits included.
    pub proof fn lemma_roundtrip(self, other: Self)
        requires
            Self::decodes_from(other, self.spec_encode()),
        ensures
            other == self,
    {
        broadcast use vstd::array::group_array_axioms;
        crate::wire::lemma_u16_le_roundtrip(self.protocol.0);
        crate::wire::lemma_u16_le_roundtrip(self.local_link_id);

    }
}

/// IEEE Std 802.11-2016, 9.4.2.102: the optional PMK identifier of the MPM element.
#[derive(Clone, Copy, Debug, PartialEq, Eq)]
pub struct MpmPmk(pub [u8; 16]);

impl MpmPmk {
    /// Reads the 16-byte PMK identifier.
    pub fn read_from(r: &mut BufferReader) -> (res: Option<Self>)
        requires
            old(r).wf(),
        ensures
            final(r).wf(),
            final(r).bytes() == old(r).bytes(),
            match res {
                Some(h) => old(r).remaining_spec().len() >= 16
                    && h.0@ == old(r).remaining_spec().subrange(0, 16)
                    && final(r).pos_spec() == old(r).pos_spec() + 16,
                None => old(r).remaining_spec().len() < 16
                    && final(r).pos_spec() == old(r).pos_spec(),
            },
    {
        match r.read_bytes(16) {
            Some(s) => {
                let m: [u8; 16] = [
                    s[0], s[1], s[2], s[3], s[4], s[5], s[6], s[7],
                    s[8], s[9], s[10], s[11], s[12], s[13], s[14], s[15],
                ];
                assert(m@ =~= s@);
                Some(MpmPmk(m))
            },
            None => None,
        }
    }

    /// Writes the 16-byte PMK identifier, or fails without writing anything
    /// if the buffer cannot hold it.
    pub fn write_to(&self, w: &mut BufferWriter) -> (res: Result<(), Error>)
        requires
            old(w).wf(),
        ensures
            final(w).wf(),
            final(w).cap_spec() == old(w).cap_spec(),
            match res {
                Ok(()) => old(w).cap_spec() - old(w).written().len() >= 16
                    && final(w).written() == old(w).written() + self.0@,
                Err(e) => e == Error::BufferTooSmall
                    && old(w).cap_spec() - old(w).written().len() < 16
                    && *final(w) == *old(w),
            },
    {
        if w.remaining_cap() < 16 {
            return Err(Error::BufferTooSmall);
        }
        w.append_bytes(self.0.as_slice());
        Ok(())
    }

    /// Decoding the wire image of a value yields that value and no other.
    pub proof fn lemma_roundtrip(self, other: Self)
        requires
            other.0@ == self.0@,
        ensures
            other == self,
    {
        broadcast use vstd::array::group_array_axioms;

        assert(other.0 =~= self.0);
    }
}

/// The MPM element as carried in a mesh peering open frame.
#[derive(Clone, Copy, Debug, PartialEq, Eq)]
pub struct MpmOpenView {
    pub header: MpmHeader,
    pub pmk: Option<MpmPmk>,
}

/// Parses the MPM element of a mesh peering open frame: the fixed header,
/// then the PMK identifier when sixteen more bytes are present.
pub fn parse_mpm_open(bytes: &[u8]) -> (res: Option<MpmOpenView>)
    ensures
        match res {
            Some(v) => bytes@.len() >= 4
                && MpmHeader::decodes_from(v.header, bytes@.subrange(0, 4))
                && (match v.pmk {
                    Some(p) => bytes@.len() >= 20 && p.0@ == bytes@.subrange(4, 20),
                    None => bytes@.len() < 20,
                }),
            None => bytes@.len() < 4,
        },
{
    let mut r = BufferReader::new(bytes);
    let header = match MpmHeader::read_from(&mut r) {
        Some(h) => h,
        None => {
            return None;
        },
    };
    let pmk = MpmPmk::read_from(&mut r);
    Some(MpmOpenView { header, pmk })
}

/// The MPM element as carried in a mesh peering confirm frame.
#[derive(Clone, Copy, Debug, PartialEq, Eq)]
pub struct MpmConfirmView {
    pub header: MpmHeader,
    pub peer_link_id: u16,
    pub pmk: Option<MpmPmk>,
}

/// Parses the MPM element of a mesh peering confirm frame: the fixed header,
/// the peer link identifier, then the PMK identifier when sixteen more bytes
/// are present.
pub fn parse_mpm_confirm(bytes: &[u8]) -> (res: Option<MpmConfirmView>)
    ensures
        match res {
            Some(v) => bytes@.len() >= 6
                && MpmHeader::decodes_from(v.header, bytes@.subrange(0, 4))
                && v.peer_link_id == u16_from_le(bytes@[4], bytes@[5])
                && (match v.pmk {
                    Some(p) => bytes@.len() >= 22 && p.0@ == bytes@.subrange(6, 22),
                    None => bytes@.len() < 22,
                }),
            None => bytes@.len() < 6,
        },
{
    let mut r = BufferReader::new(bytes);
    let header = match MpmHeader::read_from(&mut r) {
        Some(h) => h,
        None => {
            return None;
        },
    };
    let peer_link_id = match r.read_u16_le() {
        Some(x) => x,
        None => {
            return None;
        },
    };
    let pmk = MpmPmk::read_from(&mut r);
    Some(MpmConfirmView { header, peer_link_id, pmk })
}

/// The MPM element as carried in a mesh peering close frame.
#[derive(Clone, Copy, Debug, PartialEq, Eq)]
pub struct MpmCloseView {
    pub header: MpmHeader,
    pub peer_link_id: Option<u16>,
    pub reason_code: ReasonCode,
    pub pmk: Option<MpmPmk>,
}

/// Parses the MPM element of a mesh peering close frame. After the fixed
/// header, the element length alone decides which optional fields are
/// present: sixteen trailing bytes beyond the reason code are the PMK
/// identifier, and two bytes before the reason code are the peer link
/// identifier.
pub fn parse_mpm_close(bytes: &[u8]) -> (res: Option<MpmCloseView>)
    ensures
        match res {
            Some(v) => {
                let rem = bytes@.len() - 4;
                let has_pmk = rem >= 18;
                let has_link = if has_pmk { rem >= 20 } else { rem >= 4 };
                let reason_off = if has_link { 6int } else { 4int };
                &&& bytes@.len() >= 6
                &&& MpmHeader::decodes_from(v.header, bytes@.subrange(0, 4))
                &&& (match v.peer_link_id {
                    Some(x) => has_link && x == u16_from_le(bytes@[4], bytes@[5]),
                    None => !has_link,
                })
                &&& v.reason_code.0 == u16_from_le(bytes@[reason_off], bytes@[reason_off + 1])
                &&& (match v.pmk {
                    Some(p) => has_pmk
                        && p.0@ == bytes@.subrange(reason_off + 2, reason_off + 18),
                    None => !has_pmk,
                })
            },
            None => bytes@.len() < 6,
        },
{
    let mut r = BufferReader::new(bytes);
    let header = match MpmHeader::read_from(&mut r) {
        Some(h) => h,
        None => {
            return None;
        },
    };
    let rem = r.bytes_remaining();
    let has_pmk = rem >= 18;
    let has_link = if has_pmk { rem >= 20 } else { rem >= 4 };
    let peer_link_id = if has_link {
        match r.read_u16_le() {
            Some(x) => Some(x),
            None => {
                return None;
            },
        }
    } else {
        None
    };
    let reason_code = match r.read_u16_le() {
        Some(x) => ReasonCode(x),
        None => {
            return None;
        },
    };
    let pmk = if has_pmk { MpmPmk::read_from(&mut r) } else { None };
    if has_pmk && pmk.is_none() {
        return None;
    }
    Some(MpmCloseView { header, peer_link_id, reason_code, pmk })
}

/// IEEE Std 802.11-2016, 9.4.2.113, Figure 9-478; bits 3 to 5 and 7 are reserved.
#[derive(Clone, Copy, PartialEq, Eq, Debug)]
pub struct PreqFlags(pub u8);

impl PreqFlags {

    pub fn gate_announcement(&self) -> (b: bool)
        ensures
            b == get_bit8(self.0, 0),
    {
        read_bit_u8(self.0, 0)
    }

    pub fn set_gate_announcement(&mut self, v: bool)
        ensures
            final(self).0 == set_bit8(old(self).0, 0, v),
    {
        self.0 = write_bit_u8(self.0, 0, v);
    }

    pub fn addressing_mode(&self) -> (b: bool)
        ensures
            b == get_bit8(self.0, 1),
    {
        read_bit_u8(self.0, 1)
    }

    pub fn set_addressing_mode(&mut self, v: bool)
        ensures
            final(self).0 == set_bit8(old(self).0, 1, v),
    {
        self.0 = write_bit_u8(self.0, 1, v);
    }

    pub fn proactive(&self) -> (b: bool)
        ensures
            b == get_bit8(self.0, 2),
    {
        read_bit_u8(self.0, 2)
    }

    pub fn set_proactive(&mut self, v: bool)
        ensures
            final(self).0 == set_bit8(old(self).0, 2, v),
    {
        self.0 = write_bit_u8(self.0, 2, v);
    }

    pub fn addr_ext(&self) -> (b: bool)
        ensures
            b == get_bit8(self.0, 6),
    {
        read_bit_u8(self.0, 6)
    }

    pub fn set_addr_ext(&mut self, v: bool)
        ensures
            final(self).0 == set_bit8(old(self).0, 6, v),
    {
        self.0 = write_bit_u8(self.0, 6, v);
    }

}

/// IEEE Std 802.11-2016, 9.4.2.113, Figure 9-477: the fixed PREQ fields that precede the optional originator external address.
#[derive(Clone, Copy, Debug, PartialEq, Eq)]
pub struct PreqHeader {
    pub flags: PreqFlags,
    pub hop_count: u8,
    pub element_ttl: u8,
    pub path_discovery_id: u32,
    pub originator_addr: MacAddr,
    pub originator_hwmp_seqno: u32,
}

impl PreqHeader {
    /// The exact 17-byte wire image.
    pub open spec fn spec_encode(self) -> Seq<u8> {
        seq![self.flags.0]
            + seq![self.hop_count]
            + seq![self.element_ttl]
            + u32_le_bytes(self.path_discovery_id)
            + self.originator_addr@
            + u32_le_bytes(self.originator_hwmp_seqno)
    }

    /// Whether this value is what a 17-byte window `b` decodes to.
    pub open spec fn decodes_from(h: Self, b: Seq<u8>) -> bool {
        &&& h.flags.0 == b[0]
        &&& h.hop_count == b[1]
        &&& h.element_ttl == b[2]
        &&& h.path_discovery_id == u32_from_le(b[3], b[4], b[5], b[6])
        &&& h.originator_addr@ == b.subrange(7, 13)
        &&& h.originator_hwmp_seqno == u32_from_le(b[13], b[14], b[15], b[16])
    }

    /// Reads the structure if at least 17 bytes remain; otherwise leaves
    /// the cursor unmoved.
    pub fn read_from(r: &mut BufferReader) -> (res: Option<Self>)
        requires
            old(r).wf(),
        ensures
            final(r).wf(),
            final(r).bytes() == old(r).bytes(),
            match res {
                Some(h) => old(r).remaining_spec().len() >= 17
                    && Self::decodes_from(h, old(r).remaining_spec().subrange(0, 17))
                    && final(r).pos_spec() == old(r).pos_spec() + 17,
                None => old(r).remaining_spec().len() < 17
                    && final(r).pos_spec() == old(r).pos_spec(),
            },
    {
        if r.bytes_remaining() < 17 {
            return None;
        }
        let ghost r0 = *r;
        let flags = PreqFlags(r.read_u8().unwrap());
        let hop_count = r.read_u8().unwrap();
        let element_ttl = r.read_u8().unwrap();
        let path_discovery_id = r.read_u32_le().unwrap();
        let originator_addr = read_mac_addr(r).unwrap();
        let originator_hwmp_seqno = r.read_u32_le().unwrap();
        let h = PreqHeader { flags, hop_count, element_ttl, path_discovery_id, originator_addr, originator_hwmp_seqno };
        proof {
            let b = r0.remaining_spec().subrange(0, 17);
            assert(originator_addr@ =~= b.subrange(7, 13));
            assert(Self::decodes_from(h, b));
        }
        Some(h)
    }

    /// Writes the 17-byte wire image, or fails without writing anything
    /// if the buffer cannot hold it.
    pub fn write_to(&self, w: &mut BufferWriter) -> (res: Result<(), Error>)
        requires
            old(w).wf(),
        ensures
            final(w).wf(),
            final(w).cap_spec() == old(w).cap_spec(),
            match res {
                Ok(()) => old(w).cap_spec() - old(w).written().len() >= 17
                    && final(w).written() == old(w).written() + self.spec_encode(),
                Err(e) => e == Error::BufferTooSmall
                    && old(w).cap_spec() - old(w).written().len() < 17
                    && *final(w) == *old(w),
            },
    {
        if w.remaining_cap() < 17 {
            return Err(Error::BufferTooSmall);
        }
        let ghost w0 = *w;
        w.append_u8(self.flags.0);
        w.append_u8(self.hop_count);
        w.append_u8(self.element_ttl);
        w.append_u32_le(self.path_discovery_id);
        append_mac_addr(w, &self.originator_addr);
        w.append_u32_le(self.originator_hwmp_seqno);
        assert(w.written() =~= w0.written() + self.spec_encode());
        Ok(())
    }

    /// Decoding the wire image of a value yields that value and no other:
    /// the encoding is lossless, reserved bits included.
    pub proof fn lemma_roundtrip(self, other: Self)
        requires
            Self::decodes_from(other, self.spec_encode()),
        ensures
            other == self,
    {
        broadcast use vstd::array::group_array_axioms;
        crate::wire::lemma_u32_le_roundtrip(self.path_discovery_id);
        crate::wire::lemma_u32_le_roundtrip(self.originator_hwmp_seqno);
        assert(self.spec_encode().subrange(7, 13) =~= self.originator_addr@);
        assert(other.originator_addr =~= self.originator_addr);
    }
}

/// IEEE Std 802.11-2016, 9.4.2.113, Figure 9-477: the fixed PREQ fields that follow the optional originator external address and precede the per-target records.
#[derive(Clone, Copy, Debug, PartialEq, Eq)]
pub struct PreqMiddle {
    pub lifetime: u32,
    pub metric: u32,
    pub target_count: u8,
}

impl PreqMiddle {
    /// The exact 9-byte wire image.
    pub open spec fn spec_encode(self) -> Seq<u8> {
        u32_le_bytes(self.lifetime)
            + u32_le_bytes(self.metric)
            + seq![self.target_count]
    }

    /// Whether this value is what a 9-byte window `b` decodes to.
    pub open spec fn decodes_from(h: Self, b: Seq<u8>) -> bool {
        &&& h.lifetime == u32_from_le(b[0], b[1], b[2], b[3])
        &&& h.metric == u32_from_le(b[4], b[5], b[6], b[7])
        &&& h.target_count == b[8]
    }

    /// Reads the structure if at least 9 bytes remain; otherwise leaves
    /// the cursor unmoved.
    pub fn read_from(r: &mut BufferReader) -> (res: Option<Self>)
        requires
            old(r).wf(),
        ensures
            final(r).wf(),
            final(r).bytes() == old(r).bytes(),
            match res {
                Some(h) => old(r).remaining_spec().len() >= 9
                    && Self::decodes_from(h, old(r).remaining_spec().subrange(0, 9))
                    && final(r).pos_spec() == old(r).pos_spec() + 9,
                None => old(r).remaining_spec().len() < 9
                    && final(r).pos_spec() == old(r).pos_spec(),
            },
    {
        if r.bytes_remaining() < 9 {
            return None;
        }
        let ghost r0 = *r;
        let lifetime = r.read_u32_le().unwrap();
        let metric = r.read_u32_le().unwrap();
        let target_count = r.read_u8().unwrap();
        let h = PreqMiddle { lifetime, metric, target_count };
        proof {
            let b = r0.remaining_spec().subrange(0, 9);

            assert(Self::decodes_from(h, b));
        }
        Some(h)
    }

    /// Writes the 9-byte wire image, or fails without writing anything
    /// if the buffer cannot hold it.
    pub fn write_to(&self, w: &mut BufferWriter) -> (res: Result<(), Error>)
        requires
            old(w).wf(),
        ensures
            final(w).wf(),
            final(w).cap_spec() == old(w).cap_spec(),
            match res {
                Ok(()) => old(w).cap_spec() - old(w).written().len() >= 9
                    && final(w).written() == old(w).written() + self.spec_encode(),
                Err(e) => e == Error::BufferTooSmall
                    && old(w).cap_spec() - old(w).written().len() < 9
                    && *final(w) == *old(w),
            },
    {
        if w.remaining_cap() < 9 {
            return Err(Error::BufferTooSmall);
        }
        let ghost w0 = *w;
        w.append_u32_le(self.lifetime);
        w.append_u32_le(self.metric);
        w.append_u8(self.target_count);
        assert(w.written() =~= w0.written() + self.spec_encode());
        Ok(())
    }

    /// Decoding the wire image of a value yields that value and no other:
    /// the encoding is lossless, reserved bits included.
    pub proof fn lemma_roundtrip(self, other: Self)
        requires
            Self::decodes_from(other, self.spec_encode()),
        ensures
            other == self,
    {
        broadcast use vstd::array::group_array_axioms;
        crate::wire::lemma_u32_le_roundtrip(self.lifetime);
        crate::wire::lemma_u32_le_roundtrip(self.metric);

    }
}

/// IEEE Std 802.11-2016, 9.4.2.113, Figure 9-479; bits 1 and 3 to 7 are reserved.
#[derive(Clone, Copy, PartialEq, Eq, Debug)]
pub struct PreqPerTargetFlags(pub u8);

impl PreqPerTargetFlags {

    pub fn target_only(&self) -> (b: bool)
        ensures
            b == get_bit8(self.0, 0),
    {
        read_bit_u8(self.0, 0)
    }

    pub fn set_target_only(&mut self, v: bool)
        ensures
            final(self).0 == set_bit8(old(self).0, 0, v),
    {
        self.0 = write_bit_u8(self.0, 0, v);
    }

    pub fn usn(&self) -> (b: bool)
        ensures
            b == get_bit8(self.0, 2),
    {
        read_bit_u8(self.0, 2)
    }

    pub fn set_usn(&mut self, v: bool)
        ensures
            final(self).0 == set_bit8(old(self).0, 2, v),
    {
        self.0 = write_bit_u8(self.0, 2, v);
    }

}

/// IEEE Std 802.11-2016, 9.4.2.113, Figure 9-477: one record of the variable-length part of the PREQ element.
#[derive(Clone, Copy, Debug, PartialEq, Eq)]
pub struct PreqPerTarget {
    pub flags: PreqPerTargetFlags,
    pub target_addr: MacAddr,
    pub target_hwmp_seqno: u32,
}

impl PreqPerTarget {
    /// The exact 11-byte wire image.
    pub open spec fn spec_encode(self) -> Seq<u8> {
        seq![self.flags.0]
            + self.target_addr@
            + u32_le_bytes(self.target_hwmp_seqno)
    }

    /// Whether this value is what a 11-byte window `b` decodes to.
    pub open spec fn decodes_from(h: Self, b: Seq<u8>) -> bool {
        &&& h.flags.0 == b[0]
        &&& h.target_addr@ == b.subrange(1, 7)
        &&& h.target_hwmp_seqno == u32_from_le(b[7], b[8], b[9], b[10])
    }

    /// Reads the structure if at least 11 bytes remain; otherwise leaves
    /// the cursor unmoved.
    pub fn read_from(r: &mut BufferReader) -> (res: Option<Self>)
        requires
            old(r).wf(),
        ensures
            final(r).wf(),
            final(r).bytes() == old(r).bytes(),
            match res {
                Some(h) => old(r).remaining_spec().len() >= 11
                    && Self::decodes_from(h, old(r).remaining_spec().subrange(0, 11))
                    && final(r).pos_spec() == old(r).pos_spec() + 11,
                None => old(r).remaining_spec().len() < 11
                    && final(r).pos_spec() == old(r).pos_spec(),
            },
    {
        if r.bytes_remaining() < 11 {
            return None;
        }
        let ghost r0 = *r;
        let flags = PreqPerTargetFlags(r.read_u8().unwrap());
        let target_addr = read_mac_addr(r).unwrap();
        let target_hwmp_seqno = r.read_u32_le().unwrap();
        let h = PreqPerTarget { flags, target_addr, target_hwmp_seqno };
        proof {
            let b = r0.remaining_spec().subrange(0, 11);
            assert(target_addr@ =~= b.subrange(1, 7));
            assert(Self::decodes_from(h, b));
        }
        Some(h)
    }

    /// Writes the 11-byte wire image, or fails without writing anything
    /// if the buffer cannot hold it.
    pub fn write_to(&self, w: &mut BufferWriter) -> (res: Result<(), Error>)
        requires
            old(w).wf(),
        ensures
            final(w).wf(),
            final(w).cap_spec() == old(w).cap_spec(),
            match res {
                Ok(()) => old(w).cap_spec() - old(w).written().len() >= 11
                    && final(w).written() == old(w).written() + self.spec_encode(),
                Err(e) => e == Error::BufferTooSmall
                    && old(w).cap_spec() - old(w).written().len() < 11
                    && *final(w) == *old(w),
            },
    {
        if w.remaining_cap() < 11 {
            return Err(Error::BufferTooSmall);
        }
        let ghost w0 = *w;
        w.append_u8(self.flags.0);
        append_mac_addr(w, &self.target_addr);
        w.append_u32_le(self.target_hwmp_seqno);
        assert(w.written() =~= w0.written() + self.spec_encode());
        Ok(())
    }

    /// Decoding the wire image of a value yields that value and no other:
    /// the encoding is lossless, reserved bits included.
    pub proof fn lemma_roundtrip(self, other: Self)
        requires
            Self::decodes_from(other, self.spec_encode()),
        ensures
            other == self,
    {
        broadcast use vstd::array::group_array_axioms;
        crate::wire::lemma_u32_le_roundtrip(self.target_hwmp_seqno);
        assert(self.spec_encode().subrange(1, 7) =~= self.target_addr@);
        assert(other.target_addr =~= self.target_addr);
    }
}

/// The length of the external-address extension of a PREQ element body:
/// six when the flags byte has the extension bit set, zero otherwise.
pub open spec fn preq_ext_len(b: Seq<u8>) -> int {
    if b.len() >= 1 && get_bit8(b[0], 6) {
        6
    } else {
        0
    }
}

/// Whether a PREQ element body is long enough for its fixed parts and for
/// every per-target record its target count announces.
pub open spec fn preq_complete(b: Seq<u8>) -> bool {
    b.len() >= 26 + preq_ext_len(b)
        && b.len() >= 26 + preq_ext_len(b) + 11 * (b[25 + preq_ext_len(b)] as int)
}

/// IEEE Std 802.11-2016, 9.4.2.113: a parsed PREQ element.
#[derive(Clone, Debug, PartialEq, Eq)]
pub struct PreqView {
    pub header: PreqHeader,
    pub originator_external_addr: Option<MacAddr>,
    pub middle: PreqMiddle,
    pub targets: Vec<PreqPerTarget>,
}

/// Parses a PREQ element body: the fixed header, the originator external
/// address when the flags announce it, the middle fields, then exactly as
/// many per-target records as the target count announces. A body too short
/// for any of these parts is rejected as a whole.
pub fn parse_preq(bytes: &[u8]) -> (res: Option<PreqView>)
    ensures
        res is Some <==> preq_complete(bytes@),
        match res {
            Some(v) => {
                let e = preq_ext_len(bytes@);
                &&& PreqHeader::decodes_from(v.header, bytes@.subrange(0, 17))
                &&& (match v.originator_external_addr {
                    Some(a) => e == 6 && a@ == bytes@.subrange(17, 23),
                    None => e == 0,
                })
                &&& PreqMiddle::decodes_from(v.middle, bytes@.subrange(17 + e, 26 + e))
                &&& v.targets@.len() == v.middle.target_count
                &&& (forall|i: int| 0 <= i < v.targets@.len()
                    ==> PreqPerTarget::decodes_from(
                        #[trigger] v.targets@[i],
                        bytes@.subrange(26 + e + 11 * i, 37 + e + 11 * i),
                    ))
            },
            None => true,
        },
{
    let mut r = BufferReader::new(bytes);
    let header = match PreqHeader::read_from(&mut r) {
        Some(h) => h,
        None => {
            return None;
        },
    };
    assert(bytes@.subrange(0, bytes@.len() as int) =~= bytes@);
    let originator_external_addr = if header.flags.addr_ext() {
        match read_mac_addr(&mut r) {
            Some(a) => {
                assert(a@ =~= bytes@.subrange(17, 23));
                Some(a)
            },
            None => {
                return None;
            },
        }
    } else {
        None
    };
    let ghost e = preq_ext_len(bytes@);
    let middle = match PreqMiddle::read_from(&mut r) {
        Some(m) => m,
        None => {
            return None;
        },
    };
    proof {
        assert(bytes@.subrange(17 + e, bytes@.len() as int).subrange(0, 9)
            =~= bytes@.subrange(17 + e, 26 + e));
    }
    assert(middle.target_count == bytes@[25 + e]);
    let n = middle.target_count as usize;
    let rem = r.bytes_remaining();
    if rem / 11 < n {
        assert(rem < 11 * n) by (nonlinear_arith)
            requires
                rem / 11 < n,
        ;
        return None;
    }
    assert(rem >= 11 * n) by (nonlinear_arith)
        requires
            rem / 11 >= n,
    ;
    let mut targets: Vec<PreqPerTarget> = Vec::new();
    let mut i: usize = 0;
    while i < n
        invariant
            i <= n,
            r.wf(),
            r.bytes() == bytes@,
            r.pos_spec() == 26 + e + 11 * i,
            bytes@.len() >= 26 + e + 11 * n,
            targets@.len() == i,
            forall|j: int| 0 <= j < i
                ==> PreqPerTarget::decodes_from(
                    #[trigger] targets@[j],
                    bytes@.subrange(26 + e + 11 * j, 37 + e + 11 * j),
                ),
        decreases n - i,
    {
        let t = PreqPerTarget::read_from(&mut r).unwrap();
        proof {
            assert(r.bytes().subrange(26 + e + 11 * (i as int), bytes@.len() as int)
                .subrange(0, 11) =~= bytes@.subrange(26 + e + 11 * (i as int), 37 + e + 11 * (i as int)));
        }
        targets.push(t);
        i = i + 1;
    }
    Some(PreqView { header, originator_external_addr, middle, targets })
}

/// IEEE Std 802.11-2016, 9.4.2.114, Figure 9-481; all other bits are reserved.
#[derive(Clone, Copy, PartialEq, Eq, Debug)]
pub struct PrepFlags(pub u8);

impl PrepFlags {

    pub fn addr_ext(&self) -> (b: bool)
        ensures
            b == get_bit8(self.0, 6),
    {
        read_bit_u8(self.0, 6)
    }

    pub fn set_addr_ext(&mut self, v: bool)
        ensures
            final(self).0 == set_bit8(old(self).0, 6, v),
    {
        self.0 = write_bit_u8(self.0, 6, v);
    }

}

/// IEEE Std 802.11-2016, 9.4.2.114, Figure 9-480: the fixed PREP fields that precede the optional target external address.
#[derive(Clone, Copy, Debug, PartialEq, Eq)]
pub struct PrepHeader {
    pub flags: PrepFlags,
    pub hop_count: u8,
    pub element_ttl: u8,
    pub target_addr: MacAddr,
    pub target_hwmp_seqno: u32,
}

impl PrepHeader {
    /// The exact 13-byte wire image.
    pub open spec fn spec_encode(self) -> Seq<u8> {
        seq![self.flags.0]
            + seq![self.hop_count]
            + seq![self.element_ttl]
            + self.target_addr@
            + u32_le_bytes(self.target_hwmp_seqno)
    }

    /// Whether this value is what a 13-byte window `b` decodes to.
    pub open spec fn decodes_from(h: Self, b: Seq<u8>) -> bool {
        &&& h.flags.0 == b[0]
        &&& h.hop_count == b[1]
        &&& h.element_ttl == b[2]
        &&& h.target_addr@ == b.subrange(3, 9)
        &&& h.target_hwmp_seqno == u32_from_le(b[9], b[10], b[11], b[12])
    }

    /// Reads the structure if at least 13 bytes remain; otherwise leaves
    /// the cursor unmoved.
    pub fn read_from(r: &mut BufferReader) -> (res: Option<Self>)
        requires
            old(r).wf(),
        ensures
            final(r).wf(),
            final(r).bytes() == old(r).bytes(),
            match res {
                Some(h) => old(r).remaining_spec().len() >= 13
                    && Self::decodes_from(h, old(r).remaining_spec().subrange(0, 13))
                    && final(r).pos_spec() == old(r).pos_spec() + 13,
                None => old(r).remaining_spec().len() < 13
                    && final(r).pos_spec() == old(r).pos_spec(),
            },
    {
        if r.bytes_remaining() < 13 {
            return None;
        }
        let ghost r0 = *r;
        let flags = PrepFlags(r.read_u8().unwrap());
        let hop_count = r.read_u8().unwrap();
        let element_ttl = r.read_u8().unwrap();
        let target_addr = read_mac_addr(r).unwrap();
        let target_hwmp_seqno = r.read_u32_le().unwrap();
        let h = PrepHeader { flags, hop_count, element_ttl, target_addr, target_hwmp_seqno };
        proof {
            let b = r0.remaining_spec().subrange(0, 13);
            assert(target_addr@ =~= b.subrange(3, 9));
            assert(Self::decodes_from(h, b));
        }
        Some(h)
    }

    /// Writes the 13-byte wire image, or fails without writing anything
    /// if the buffer cannot hold it.
    pub fn write_to(&self, w: &mut BufferWriter) -> (res: Result<(), Error>)
        requires
            old(w).wf(),
        ensures
            final(w).wf(),
            final(w).cap_spec() == old(w).cap_spec(),
            match res {
                Ok(()) => old(w).cap_spec() - old(w).written().len() >= 13
                    && final(w).written() == old(w).written() + self.spec_encode(),
                Err(e) => e == Error::BufferTooSmall
                    && old(w).cap_spec() - old(w).written().len() < 13
                    && *final(w) == *old(w),
            },
    {
        if w.remaining_cap() < 13 {
            return Err(Error::BufferTooSmall);
        }
        let ghost w0 = *w;
        w.append_u8(self.flags.0);
        w.append_u8(self.hop_count);
        w.append_u8(self.element_ttl);
        append_mac_addr(w, &self.target_addr);
        w.append_u32_le(self.target_hwmp_seqno);
        assert(w.written() =~= w0.written() + self.spec_encode());
        Ok(())
    }

    /// Decoding the wire image of a value yields that value and no other:
    /// the encoding is lossless, reserved bits included.
    pub proof fn lemma_roundtrip(self, other: Self)
        requires
            Self::decodes_from(other, self.spec_encode()),
        ensures
            other == self,
    {
        broadcast use vstd::array::group_array_axioms;
        crate::wire::lemma_u32_le_roundtrip(self.target_hwmp_seqno);
        assert(self.spec_encode().subrange(3, 9) =~= self.target_addr@);
        assert(other.target_addr =~= self.target_addr);
    }
}

/// IEEE Std 802.11-2016, 9.4.2.114, Figure 9-480: the fixed PREP fields that follow the optional target external address.
#[derive(Clone, Copy, Debug, PartialEq, Eq)]
pub struct PrepTail {
    pub lifetime: u32,
    pub metric: u32,
    pub originator_addr: MacAddr,
    pub originator_hwmp_seqno: u32,
}

impl PrepTail {
    /// The exact 18-byte wire image.
    pub open spec fn spec_encode(self) -> Seq<u8> {
        u32_le_bytes(self.lifetime)
            + u32_le_bytes(self.metric)
            + self.originator_addr@
            + u32_le_bytes(self.originator_hwmp_seqno)
    }

    /// Whether this value is what a 18-byte window `b` decodes to.
    pub open spec fn decodes_from(h: Self, b: Seq<u8>) -> bool {
        &&& h.lifetime == u32_from_le(b[0], b[1], b[2], b[3])
        &&& h.metric == u32_from_le(b[4], b[5], b[6], b[7])
        &&& h.originator_addr@ == b.subrange(8, 14)
        &&& h.originator_hwmp_seqno == u32_from_le(b[14], b[15], b[16], b[17])
    }

    /// Reads the structure if at least 18 bytes remain; otherwise leaves
    /// the cursor unmoved.
    pub fn read_from(r: &mut BufferReader) -> (res: Option<Self>)
        requires
            old(r).wf(),
        ensures
            final(r).wf(),
            final(r).bytes() == old(r).bytes(),
            match res {
                Some(h) => old(r).remaining_spec().len() >= 18
                    && Self::decodes_from(h, old(r).remaining_spec().subrange(0, 18))
                    && final(r).pos_spec() == old(r).pos_spec() + 18,
                None => old(r).remaining_spec().len() < 18
                    && final(r).pos_spec() == old(r).pos_spec(),
            },
    {
        if r.bytes_remaining() < 18 {
            return None;
        }
        let ghost r0 = *r;
        let lifetime = r.read_u32_le().unwrap();
        let metric = r.read_u32_le().unwrap();
        let originator_addr = read_mac_addr(r).unwrap();
        let originator_hwmp_seqno = r.read_u32_le().unwrap();
        let h = PrepTail { lifetime, metric, originator_addr, originator_hwmp_seqno };
        proof {
            let b = r0.remaining_spec().subrange(0, 18);
            assert(originator_addr@ =~= b.subrange(8, 14));
            assert(Self::decodes_from(h, b));
        }
        Some(h)
    }

    /// Writes the 18-byte wire image, or fails without writing anything
    /// if the buffer cannot hold it.
    pub fn write_to(&self, w: &mut BufferWriter) -> (res: Result<(), Error>)
        requires
            old(w).wf(),
        ensures
            final(w).wf(),
            final(w).cap_spec() == old(w).cap_spec(),
            match res {
                Ok(()) => old(w).cap_spec() - old(w).written().len() >= 18
                    && final(w).written() == old(w).written() + self.spec_encode(),
                Err(e) => e == Error::BufferTooSmall
                    && old(w).cap_spec() - old(w).written().len() < 18
                    && *final(w) == *old(w),
            },
    {
        if w.remaining_cap() < 18 {
            return Err(Error::BufferTooSmall);
        }
        let ghost w0 = *w;
        w.append_u32_le(self.lifetime);
        w.append_u32_le(self.metric);
        append_mac_addr(w, &self.originator_addr);
        w.append_u32_le(self.originator_hwmp_seqno);
        assert(w.written() =~= w0.written() + self.spec_encode());
        Ok(())
    }

    /// Decoding the wire image of a value yields that value and no other:
    /// the encoding is lossless, reserved bits included.
    pub proof fn lemma_roundtrip(self, other: Self)
        requires
            Self::decodes_from(other, self.spec_encode()),
        ensures
            other == self,
    {
        broadcast use vstd::array::group_array_axioms;
        crate::wire::lemma_u32_le_roundtrip(self.lifetime);
        crate::wire::lemma_u32_le_roundtrip(self.metric);
        crate::wire::lemma_u32_le_roundtrip(self.originator_hwmp_seqno);
        assert(self.spec_encode().subrange(8, 14) =~= self.originator_addr@);
        assert(other.originator_addr =~= self.originator_addr);
    }
}

/// The length of the external-address extension of a PREP element body.
pub open spec fn prep_ext_len(b: Seq<u8>) -> int {
    if b.len() >= 1 && get_bit8(b[0], 6) {
        6
    } else {
        0
    }
}

/// IEEE Std 802.11-2016, 9.4.2.114: a parsed PREP element.
#[derive(Clone, Copy, Debug, PartialEq, Eq)]
pub struct PrepView {
    pub header: PrepHeader,
    pub target_external_addr: Option<MacAddr>,
    pub tail: PrepTail,
}

/// Parses a PREP element body: the fixed header, the target external
/// address when the flags announce it, then the tail fields.
pub fn parse_prep(bytes: &[u8]) -> (res: Option<PrepView>)
    ensures
        res is Some <==> bytes@.len() >= 31 + prep_ext_len(bytes@),
        match res {
            Some(v) => {
                let e = prep_ext_len(bytes@);
                &&& PrepHeader::decodes_from(v.header, bytes@.subrange(0, 13))
                &&& (match v.target_external_addr {
                    Some(a) => e == 6 && a@ == bytes@.subrange(13, 19),
                    None => e == 0,
                })
                &&& PrepTail::decodes_from(v.tail, bytes@.subrange(13 + e, 31 + e))
            },
            None => true,
        },
{
    let mut r = BufferReader::new(bytes);
    let header = match PrepHeader::read_from(&mut r) {
        Some(h) => h,
        None => {
            return None;
        },
    };
    assert(bytes@.subrange(0, bytes@.len() as int) =~= bytes@);
    let target_external_addr = if header.flags.addr_ext() {
        match read_mac_addr(&mut r) {
            Some(a) => {
                assert(a@ =~= bytes@.subrange(13, 19));
                Some(a)
            },
            None => {
                return None;
            },
        }
    } else {
        None
    };
    let ghost e = prep_ext_len(bytes@);
    let tail = match PrepTail::read_from(&mut r) {
        Some(t) => t,
        None => {
            return None;
        },
    };
    proof {
        assert(bytes@.subrange(13 + e, bytes@.len() as int).subrange(0, 18)
            =~= bytes@.subrange(13 + e, 31 + e));
    }
    Some(PrepView { header, target_external_addr, tail })
}

/// IEEE Std 802.11-2016, 9.4.2.115: the fixed PERR fields that precede the per-destination records.
#[derive(Clone, Copy, Debug, PartialEq, Eq)]
pub struct PerrHeader {
    pub element_ttl: u8,
    pub num_destinations: u8,
}

impl PerrHeader {
    /// The exact 2-byte wire image.
    pub open spec fn spec_encode(self) -> Seq<u8> {
        seq![self.element_ttl]
            + seq![self.num_destinations]
    }

    /// Whether this value is what a 2-byte window `b` decodes to.
    pub open spec fn decodes_from(h: Self, b: Seq<u8>) -> bool {
        &&& h.element_ttl == b[0]
        &&& h.num_destinations == b[1]
    }

    /// Reads the structure if at least 2 bytes remain; otherwise leaves
    /// the cursor unmoved.
    pub fn read_from(r: &mut BufferReader) -> (res: Option<Self>)
        requires
            old(r).wf(),
        ensures
            final(r).wf(),
            final(r).bytes() == old(r).bytes(),
            match res {
                Some(h) => old(r).remaining_spec().len() >= 2
                    && Self::decodes_from(h, old(r).remaining_spec().subrange(0, 2))
                    && final(r).pos_spec() == old(r).pos_spec() + 2,
                None => old(r).remaining_spec().len() < 2
                    && final(r).pos_spec() == old(r).pos_spec(),
            },
    {
        if r.bytes_remaining() < 2 {
            return None;
        }
        let ghost r0 = *r;
        let element_ttl = r.read_u8().unwrap();
        let num_destinations = r.read_u8().unwrap();
        let h = PerrHeader { element_ttl, num_destinations };
        proof {
            let b = r0.remaining_spec().subrange(0, 2);

            assert(Self::decodes_from(h, b));
        }
        Some(h)
    }

    /// Writes the 2-byte wire image, or fails without writing anything
    /// if the buffer cannot hold it.
    pub fn write_to(&self, w: &mut BufferWriter) -> (res: Result<(), Error>)
        requires
            old(w).wf(),
        ensures
            final(w).wf(),
            final(w).cap_spec() == old(w).cap_spec(),
            match res {
                Ok(()) => old(w).cap_spec() - old(w).written().len() >= 2
                    && final(w).written() == old(w).written() + self.spec_encode(),
                Err(e) => e == Error::BufferTooSmall
                    && old(w).cap_spec() - old(w).written().len() < 2
                    && *final(w) == *old(w),
            },
    {
        if w.remaining_cap() < 2 {
            return Err(Error::BufferTooSmall);
        }
        let ghost w0 = *w;
        w.append_u8(self.element_ttl);
        w.append_u8(self.num_destinations);
        assert(w.written() =~= w0.written() + self.spec_encode());
        Ok(())
    }

    /// Decoding the wire image of a value yields that value and no other:
    /// the encoding is lossless, reserved bits included.
    pub proof fn lemma_roundtrip(self, other: Self)
        requires
            Self::decodes_from(other, self.spec_encode()),
        ensures
            other == self,
    {
        broadcast use vstd::array::group_array_axioms;


    }
}

/// IEEE Std 802.11-2016, 9.4.2.115, Figure 9-483; all other bits are reserved.
#[derive(Clone, Copy, PartialEq, Eq, Debug)]
pub struct PerrDestinationFlags(pub u8);

impl PerrDestinationFlags {

    pub fn addr_ext(&self) -> (b: bool)
        ensures
            b == get_bit8(self.0, 6),
    {
        read_bit_u8(self.0, 6)
    }

    pub fn set_addr_ext(&mut self, v: bool)
        ensures
            final(self).0 == set_bit8(old(self).0, 6, v),
    {
        self.0 = write_bit_u8(self.0, 6, v);
    }

}

/// IEEE Std 802.11-2016, 9.4.2.115: the fixed fields of one per-destination record, before the optional external address and the reason code.
#[derive(Clone, Copy, Debug, PartialEq, Eq)]
pub struct PerrDestinationHeader {
    pub flags: PerrDestinationFlags,
    pub dest_addr: MacAddr,
    pub hwmp_seqno: u32,
}

impl PerrDestinationHeader {
    /// The exact 11-byte wire image.
    pub open spec fn spec_encode(self) -> Seq<u8> {
        seq![self.flags.0]
            + self.dest_addr@
            + u32_le_bytes(self.hwmp_seqno)
    }

    /// Whether this value is what a 11-byte window `b` decodes to.
    pub open spec fn decodes_from(h: Self, b: Seq<u8>) -> bool {
        &&& h.flags.0 == b[0]
        &&& h.dest_addr@ == b.subrange(1, 7)
        &&& h.hwmp_seqno == u32_from_le(b[7], b[8], b[9], b[10])
    }

    /// Reads the structure if at least 11 bytes remain; otherwise leaves
    /// the cursor unmoved.
    pub fn read_from(r: &mut BufferReader) -> (res: Option<Self>)
        requires
            old(r).wf(),
        ensures
            final(r).wf(),
            final(r).bytes() == old(r).bytes(),
            match res {
                Some(h) => old(r).remaining_spec().len() >= 11
                    && Self::decodes_from(h, old(r).remaining_spec().subrange(0, 11))
                    && final(r).pos_spec() == old(r).pos_spec() + 11,
                None => old(r).remaining_spec().len() < 11
                    && final(r).pos_spec() == old(r).pos_spec(),
            },
    {
        if r.bytes_remaining() < 11 {
            return None;
        }
        let ghost r0 = *r;
        let flags = PerrDestinationFlags(r.read_u8().unwrap());
        let dest_addr = read_mac_addr(r).unwrap();
        let hwmp_seqno = r.read_u32_le().unwrap();
        let h = PerrDestinationHeader { flags, dest_addr, hwmp_seqno };
        proof {
            let b = r0.remaining_spec().subrange(0, 11);
            assert(dest_addr@ =~= b.subrange(1, 7));
            assert(Self::decodes_from(h, b));
        }
        Some(h)
    }

    /// Writes the 11-byte wire image, or fails without writing anything
    /// if the buffer cannot hold it.
    pub fn write_to(&self, w: &mut BufferWriter) -> (res: Result<(), Error>)
        requires
            old(w).wf(),
        ensures
            final(w).wf(),
            final(w).cap_spec() == old(w).cap_spec(),
            match res {
                Ok(()) => old(w).cap_spec() - old(w).written().len() >= 11
                    && final(w).written() == old(w).written() + self.spec_encode(),
                Err(e) => e == Error::BufferTooSmall
                    && old(w).cap_spec() - old(w).written().len() < 11
                    && *final(w) == *old(w),
            },
    {
        if w.remaining_cap() < 11 {
            return Err(Error::BufferTooSmall);
        }
        let ghost w0 = *w;
        w.append_u8(self.flags.0);
        append_mac_addr(w, &self.dest_addr);
        w.append_u32_le(self.hwmp_seqno);
        assert(w.written() =~= w0.written() + self.spec_encode());
        Ok(())
    }

    /// Decoding the wire image of a value yields that value and no other:
    /// the encoding is lossless, reserved bits included.
    pub proof fn lemma_roundtrip(self, other: Self)
        requires
            Self::decodes_from(other, self.spec_encode()),
        ensures
            other == self,
    {
        broadcast use vstd::array::group_array_axioms;
        crate::wire::lemma_u32_le_roundtrip(self.hwmp_seqno);
        assert(self.spec_encode().subrange(1, 7) =~= self.dest_addr@);
        assert(other.dest_addr =~= self.dest_addr);
    }
}

/// One parsed per-destination record of a PERR element.
#[derive(Clone, Copy, Debug, PartialEq, Eq)]
pub struct PerrDestinationView {
    pub header: PerrDestinationHeader,
    pub ext_addr: Option<MacAddr>,
    pub reason_code: ReasonCode,
}

/// The exact length of the per-destination record at the front of `b`:
/// header and reason code, plus the external address its flags announce.
pub open spec fn perr_destination_len(b: Seq<u8>) -> int {
    if get_bit8(b[0], 6) {
        19
    } else {
        13
    }
}

/// The raw bytes of the per-destination records of a PERR element.
pub struct PerrDestinationListView<'a>(pub &'a [u8]);

impl<'a> PerrDestinationListView<'a> {
    /// Starts a fresh walk over the records.
    pub fn iter(&self) -> (it: PerrDestinationIter<'a>)
        ensures
            it.wf(),
            it.remaining_spec() == self.0@,
    {
        PerrDestinationIter { reader: BufferReader::new(self.0) }
    }

    /// Starts a fresh walk over the records, consuming the view.
    pub fn into_iter(self) -> (it: PerrDestinationIter<'a>)
        ensures
            it.wf(),
            it.remaining_spec() == self.0@,
    {
        PerrDestinationIter { reader: BufferReader::new(self.0) }
    }
}

/// A restartable, finite walk over the per-destination records of a PERR
/// element. Each step peeks the flags byte to learn whether the external
/// address is present, computes the exact record length, and only yields a
/// record if that many bytes remain; otherwise the walk ends and the
/// remaining byte count keeps the original unconsumed length.
pub struct PerrDestinationIter<'a> {
    reader: BufferReader<'a>,
}

impl<'a> PerrDestinationIter<'a> {
    /// The cursor of the walk stays within its buffer.
    pub closed spec fn wf(&self) -> bool {
        self.reader.wf()
    }

    /// The bytes not yet consumed.
    pub closed spec fn remaining_spec(&self) -> Seq<u8> {
        self.reader.remaining_spec()
    }

    /// How many bytes of the record list are not yet consumed. A failed
    /// step leaves this count exactly as it was.
    pub fn bytes_remaining(&self) -> (n: usize)
        requires
            self.wf(),
        ensures
            n == self.remaining_spec().len(),
    {
        self.reader.bytes_remaining()
    }

    /// Yields the next record, or nothing if the remaining bytes are too
    /// few for one whole record; in that case nothing is consumed.
    pub fn next(&mut self) -> (res: Option<PerrDestinationView>)
        requires
            old(self).wf(),
        ensures
            final(self).wf(),
            match res {
                Some(v) => {
                    let b = old(self).remaining_spec();
                    &&& b.len() >= 1
                    &&& b.len() >= perr_destination_len(b)
                    &&& PerrDestinationHeader::decodes_from(v.header, b.subrange(0, 11))
                    &&& (match v.ext_addr {
                        Some(a) => get_bit8(b[0], 6) && a@ == b.subrange(11, 17),
                        None => !get_bit8(b[0], 6),
                    })
                    &&& v.reason_code.0 == (if get_bit8(b[0], 6) {
                        u16_from_le(b[17], b[18])
                    } else {
                        u16_from_le(b[11], b[12])
                    })
                    &&& final(self).remaining_spec() == b.subrange(
                        perr_destination_len(b),
                        b.len() as int,
                    )
                },
                None => (old(self).remaining_spec().len() == 0
                    || old(self).remaining_spec().len()
                        < perr_destination_len(old(self).remaining_spec()))
                    && *final(self) == *old(self),
            },
    {
        let flags = match self.reader.peek_u8() {
            Some(f) => f,
            None => {
                return None;
            },
        };
        let have_ext_addr = read_bit_u8(flags, 6);
        let dest_len: usize = if have_ext_addr { 19 } else { 13 };
        if self.reader.bytes_remaining() < dest_len {
            None
        } else {
            let ghost b = self.reader.remaining_spec();
            let header = PerrDestinationHeader::read_from(&mut self.reader).unwrap();
            let ext_addr = if have_ext_addr {
                Some(read_mac_addr(&mut self.reader).unwrap())
            } else {
                None
            };
            let reason_code = ReasonCode(self.reader.read_u16_le().unwrap());
            proof {
                if get_bit8(b[0], 6) {
                    assert(b.subrange(11, b.len() as int).subrange(0, 6) =~= b.subrange(11, 17));
                }
                assert(final(self).remaining_spec()
                    =~= b.subrange(perr_destination_len(b), b.len() as int));
            }
            Some(PerrDestinationView { header, ext_addr, reason_code })
        }
    }
}

/// IEEE Std 802.11-2016, 9.4.2.115: a parsed PERR element, its header and
/// the raw per-destination records.
pub struct PerrView<'a> {
    pub header: PerrHeader,
    pub destinations: PerrDestinationListView<'a>,
}

/// Splits a PERR element body into its header and the record bytes.
pub fn parse_perr(bytes: &[u8]) -> (res: Option<PerrView>)
    ensures
        match res {
            Some(v) => bytes@.len() >= 2
                && PerrHeader::decodes_from(v.header, bytes@.subrange(0, 2))
                && v.destinations.0@ == bytes@.subrange(2, bytes@.len() as int),
            None => bytes@.len() < 2,
        },
{
    let mut r = BufferReader::new(bytes);
    match PerrHeader::read_from(&mut r) {
        Some(header) => {
            let rest = r.read_rest();
            assert(rest@ =~= bytes@.subrange(2, bytes@.len() as int));
            Some(PerrView { header, destinations: PerrDestinationListView(rest) })
        },
        None => None,
    }
}

/// A vendor-specific information element: either the MSFT legacy WPA
/// element, without the leading byte that marks it as WPA, or an unknown
/// element kept as its organizationally unique identifier and raw body.
#[derive(Debug)]
pub enum VendorIe<'a> {
    MsftLegacyWpa(&'a [u8]),
    Unknown { oui: [u8; 3], body: &'a [u8] },
}

/// IEEE Std 802.11-2016, 9.4.2.158: the VHT capabilities element body.
#[derive(PartialEq, Eq, Hash, Clone, Copy, Debug)]
pub struct VhtCapabilities {
    pub vht_cap_info: VhtCapabilitiesInfo,
    pub vht_mcs_nss: VhtMcsNssSet,
}

impl VhtCapabilities {
    /// The exact 12-byte wire image.
    pub open spec fn spec_encode(self) -> Seq<u8> {
        u32_le_bytes(self.vht_cap_info.0)
            + u64_le_bytes(self.vht_mcs_nss.0)
    }

    /// Whether this value is what a 12-byte window `b` decodes to.
    pub open spec fn decodes_from(h: Self, b: Seq<u8>) -> bool {
        &&& h.vht_cap_info.0 == u32_from_le(b[0], b[1], b[2], b[3])
        &&& h.vht_mcs_nss.0 == u64_from_le(b.subrange(4, 12))
    }

    /// Reads the structure if at least 12 bytes remain; otherwise leaves
    /// the cursor unmoved.
    pub fn read_from(r: &mut BufferReader) -> (res: Option<Self>)
        requires
            old(r).wf(),
        ensures
            final(r).wf(),
            final(r).bytes() == old(r).bytes(),
            match res {
                Some(h) => old(r).remaining_spec().len() >= 12
                    && Self::decodes_from(h, old(r).remaining_spec().subrange(0, 12))
                    && final(r).pos_spec() == old(r).pos_spec() + 12,
                None => old(r).remaining_spec().len() < 12
                    && final(r).pos_spec() == old(r).pos_spec(),
            },
    {
        if r.bytes_remaining() < 12 {
            return None;
        }
        let ghost r0 = *r;
        let vht_cap_info = VhtCapabilitiesInfo(r.read_u32_le().unwrap());
        let vht_mcs_nss = VhtMcsNssSet(r.read_u64_le().unwrap());
        let h = VhtCapabilities { vht_cap_info, vht_mcs_nss };
        proof {
            let b = r0.remaining_spec().subrange(0, 12);
            assert(r0.remaining_spec().subrange(4, 12) =~= b.subrange(4, 12));
            assert(Self::decodes_from(h, b));
        }
        Some(h)
    }

    /// Writes the 12-byte wire image, or fails without writing anything
    /// if the buffer cannot hold it.
    pub fn write_to(&self, w: &mut BufferWriter) -> (res: Result<(), Error>)
        requires
            old(w).wf(),
        ensures
            final(w).wf(),
            final(w).cap_spec() == old(w).cap_spec(),
            match res {
                Ok(()) => old(w).cap_spec() - old(w).written().len() >= 12
                    && final(w).written() == old(w).written() + self.spec_encode(),
                Err(e) => e == Error::BufferTooSmall
                    && old(w).cap_spec() - old(w).written().len() < 12
                    && *final(w) == *old(w),
            },
    {
        if w.remaining_cap() < 12 {
            return Err(Error::BufferTooSmall);
        }
        let ghost w0 = *w;
        w.append_u32_le(self.vht_cap_info.0);
        w.append_u64_le(self.vht_mcs_nss.0);
        assert(w.written() =~= w0.written() + self.spec_encode());
        Ok(())
    }

    /// Decoding the wire image of a value yields that value and no other:
    /// the encoding is lossless, reserved bits included.
    pub proof fn lemma_roundtrip(self, other: Self)
        requires
            Self::decodes_from(other, self.spec_encode()),
        ensures
            other == self,
    {
        broadcast use vstd::array::group_array_axioms;
        crate::wire::lemma_u32_le_roundtrip(self.vht_cap_info.0);
        crate::wire::lemma_u64_le_roundtrip(self.vht_mcs_nss.0);
        assert(self.spec_encode().subrange(4, 12) =~= u64_le_bytes(self.vht_mcs_nss.0));
    }
}

/// IEEE Std 802.11-2016, 9.4.2.158.2: the VHT capabilities information field.
#[derive(PartialEq, Eq, Hash, Clone, Copy, Debug)]
pub struct VhtCapabilitiesInfo(pub u32);

impl VhtCapabilitiesInfo {

    pub fn max_mpdu_len(&self) -> (r: MaxMpduLen)
        ensures
            r.0 == get_bits32(self.0, 0, 0x3) as u8,
    {
        MaxMpduLen(read_bits_u32(self.0, 0, 0x3) as u8)
    }

    pub fn set_max_mpdu_len(&mut self, v: MaxMpduLen) -> (res: Result<(), String>)
        ensures
            (match res {
                Ok(()) => v.0 <= 0x3
                    && final(self).0 == set_bits32(old(self).0, 0, 0x3, (v.0 as u32)),
                Err(m) => v.0 > 0x3 && *final(self) == *old(self)
                    && m@ == "bitfield is only 2 bit wide, "@ + decimal_chars(v.0 as u128)
                        + " invalid"@,
            }),
    {
        if v.0 > 0x3 {
            Err(compose_message("bitfield is only 2 bit wide, ", v.0 as u128, " invalid"))
        } else {
            self.0 = write_bits_u32(self.0, 0, 0x3, (v.0 as u32));
            Ok(())
        }
    }

    pub fn supported_cbw_set(&self) -> (r: u32)
        ensures
            r == get_bits32(self.0, 2, 0x3),
    {
        read_bits_u32(self.0, 2, 0x3)
    }

    pub fn set_supported_cbw_set(&mut self, v: u32) -> (res: Result<(), String>)
        ensures
            (match res {
                Ok(()) => v <= 0x3
                    && final(self).0 == set_bits32(old(self).0, 2, 0x3, v),
                Err(m) => v > 0x3 && *final(self) == *old(self)
                    && m@ == "bitfield is only 2 bit wide, "@ + decimal_chars(v as u128)
                        + " invalid"@,
            }),
    {
        if v > 0x3 {
            Err(compose_message("bitfield is only 2 bit wide, ", v as u128, " invalid"))
        } else {
            self.0 = write_bits_u32(self.0, 2, 0x3, v);
            Ok(())
        }
    }

    pub fn rx_ldpc(&self) -> (b: bool)
        ensures
            b == get_bit32(self.0, 4),
    {
        read_bit_u32(self.0, 4)
    }

    pub fn set_rx_ldpc(&mut self, v: bool)
        ensures
            final(self).0 == set_bit32(old(self).0, 4, v),
    {
        self.0 = write_bit_u32(self.0, 4, v);
    }

    pub fn sgi_cbw80(&self) -> (b: bool)
        ensures
            b == get_bit32(self.0, 5),
    {
        read_bit_u32(self.0, 5)
    }

    pub fn set_sgi_cbw80(&mut self, v: bool)
        ensures
            final(self).0 == set_bit32(old(self).0, 5, v),
    {
        self.0 = write_bit_u32(self.0, 5, v);
    }

    pub fn sgi_cbw160(&self) -> (b: bool)
        ensures
            b == get_bit32(self.0, 6),
    {
        read_bit_u32(self.0, 6)
    }

    pub fn set_sgi_cbw160(&mut self, v: bool)
        ensures
            final(self).0 == set_bit32(old(self).0, 6, v),
    {
        self.0 = write_bit_u32(self.0, 6, v);
    }

    pub fn tx_stbc(&self) -> (b: bool)
        ensures
            b == get_bit32(self.0, 7),
    {
        read_bit_u32(self.0, 7)
    }

    pub fn set_tx_stbc(&mut self, v: bool)
        ensures
            final(self).0 == set_bit32(old(self).0, 7, v),
    {
        self.0 = write_bit_u32(self.0, 7, v);
    }

    pub fn rx_stbc(&self) -> (r: u32)
        ensures
            r == get_bits32(self.0, 8, 0x7),
    {
        read_bits_u32(self.0, 8, 0x7)
    }

    pub fn set_rx_stbc(&mut self, v: u32) -> (res: Result<(), String>)
        ensures
            (match res {
                Ok(()) => v <= 0x7
                    && final(self).0 == set_bits32(old(self).0, 8, 0x7, v),
                Err(m) => v > 0x7 && *final(self) == *old(self)
                    && m@ == "bitfield is only 3 bit wide, "@ + decimal_chars(v as u128)
                        + " invalid"@,
            }),
    {
        if v > 0x7 {
            Err(compose_message("bitfield is only 3 bit wide, ", v as u128, " invalid"))
        } else {
            self.0 = write_bits_u32(self.0, 8, 0x7, v);
            Ok(())
        }
    }

    pub fn su_bfer(&self) -> (b: bool)
        ensures
            b == get_bit32(self.0, 11),
    {
        read_bit_u32(self.0, 11)
    }

    pub fn set_su_bfer(&mut self, v: bool)
        ensures
            final(self).0 == set_bit32(old(self).0, 11, v),
    {
        self.0 = write_bit_u32(self.0, 11, v);
    }

    pub fn su_bfee(&self) -> (b: bool)
        ensures
            b == get_bit32(self.0, 12),
    {
        read_bit_u32(self.0, 12)
    }

    pub fn set_su_bfee(&mut self, v: bool)
        ensures
            final(self).0 == set_bit32(old(self).0, 12, v),
    {
        self.0 = write_bit_u32(self.0, 12, v);
    }

    pub fn bfee_sts(&self) -> (r: u32)
        ensures
            r == get_bits32(self.0, 13, 0x7),
    {
        read_bits_u32(self.0, 13, 0x7)
    }

    pub fn set_bfee_sts(&mut self, v: u32) -> (res: Result<(), String>)
        ensures
            (match res {
                Ok(()) => v <= 0x7
                    && final(self).0 == set_bits32(old(self).0, 13, 0x7, v),
                Err(m) => v > 0x7 && *final(self) == *old(self)
                    && m@ == "bitfield is only 3 bit wide, "@ + decimal_chars(v as u128)
                        + " invalid"@,
            }),
    {
        if v > 0x7 {
            Err(compose_message("bitfield is only 3 bit wide, ", v as u128, " invalid"))
        } else {
            self.0 = write_bits_u32(self.0, 13, 0x7, v);
            Ok(())
        }
    }

    pub fn num_sounding(&self) -> (r: u32)
        ensures
            r == get_bits32(self.0, 16, 0x7),
    {
        read_bits_u32(self.0, 16, 0x7)
    }

    pub fn set_num_sounding(&mut self, v: u32) -> (res: Result<(), String>)
        ensures
            (match res {
                Ok(()) => v <= 0x7
                    && final(self).0 == set_bits32(old(self).0, 16, 0x7, v),
                Err(m) => v > 0x7 && *final(self) == *old(self)
                    && m@ == "bitfield is only 3 bit wide, "@ + decimal_chars(v as u128)
                        + " invalid"@,
            }),
    {
        if v > 0x7 {
            Err(compose_message("bitfield is only 3 bit wide, ", v as u128, " invalid"))
        } else {
            self.0 = write_bits_u32(self.0, 16, 0x7, v);
            Ok(())
        }
    }

    pub fn mu_bfer(&self) -> (b: bool)
        ensures
            b == get_bit32(self.0, 19),
    {
        read_bit_u32(self.0, 19)
    }

    pub fn set_mu_bfer(&mut self, v: bool)
        ensures
            final(self).0 == set_bit32(old(self).0, 19, v),
    {
        self.0 = write_bit_u32(self.0, 19, v);
    }

    pub fn mu_bfee(&self) -> (b: bool)
        ensures
            b == get_bit32(self.0, 20),
    {
        read_bit_u32(self.0, 20)
    }

    pub fn set_mu_bfee(&mut self, v: bool)
        ensures
            final(self).0 == set_bit32(old(self).0, 20, v),
    {
        self.0 = write_bit_u32(self.0, 20, v);
    }

    pub fn txop_ps(&self) -> (b: bool)
        ensures
            b == get_bit32(self.0, 21),
    {
        read_bit_u32(self.0, 21)
    }

    pub fn set_txop_ps(&mut self, v: bool)
        ensures
            final(self).0 == set_bit32(old(self).0, 21, v),
    {
        self.0 = write_bit_u32(self.0, 21, v);
    }

    pub fn htc_vht(&self) -> (b: bool)
        ensures
            b == get_bit32(self.0, 22),
    {
        read_bit_u32(self.0, 22)
    }

    pub fn set_htc_vht(&mut self, v: bool)
        ensures
            final(self).0 == set_bit32(old(self).0, 22, v),
    {
        self.0 = write_bit_u32(self.0, 22, v);
    }

    pub fn max_ampdu_exponent(&self) -> (r: MaxAmpduExponent)
        ensures
            r.0 == get_bits32(self.0, 23, 0x7) as u8,
    {
        MaxAmpduExponent(read_bits_u32(self.0, 23, 0x7) as u8)
    }

    pub fn set_max_ampdu_exponent(&mut self, v: MaxAmpduExponent) -> (res: Result<(), String>)
        ensures
            (match res {
                Ok(()) => v.0 <= 0x7
                    && final(self).0 == set_bits32(old(self).0, 23, 0x7, (v.0 as u32)),
                Err(m) => v.0 > 0x7 && *final(self) == *old(self)
                    && m@ == "bitfield is only 3 bit wide, "@ + decimal_chars(v.0 as u128)
                        + " invalid"@,
            }),
    {
        if v.0 > 0x7 {
            Err(compose_message("bitfield is only 3 bit wide, ", v.0 as u128, " invalid"))
        } else {
            self.0 = write_bits_u32(self.0, 23, 0x7, (v.0 as u32));
            Ok(())
        }
    }

    pub fn link_adapt(&self) -> (r: VhtLinkAdaptation)
        ensures
            r.0 == get_bits32(self.0, 26, 0x3) as u8,
    {
        VhtLinkAdaptation(read_bits_u32(self.0, 26, 0x3) as u8)
    }

    pub fn set_link_adapt(&mut self, v: VhtLinkAdaptation) -> (res: Result<(), String>)
        ensures
            (match res {
                Ok(()) => v.0 <= 0x3
                    && final(self).0 == set_bits32(old(self).0, 26, 0x3, (v.0 as u32)),
                Err(m) => v.0 > 0x3 && *final(self) == *old(self)
                    && m@ == "bitfield is only 2 bit wide, "@ + decimal_chars(v.0 as u128)
                        + " invalid"@,
            }),
    {
        if v.0 > 0x3 {
            Err(compose_message("bitfield is only 2 bit wide, ", v.0 as u128, " invalid"))
        } else {
            self.0 = write_bits_u32(self.0, 26, 0x3, (v.0 as u32));
            Ok(())
        }
    }

    pub fn rx_ant_pattern(&self) -> (b: bool)
        ensures
            b == get_bit32(self.0, 28),
    {
        read_bit_u32(self.0, 28)
    }

    pub fn set_rx_ant_pattern(&mut self, v: bool)
        ensures
            final(self).0 == set_bit32(old(self).0, 28, v),
    {
        self.0 = write_bit_u32(self.0, 28, v);
    }

    pub fn tx_ant_pattern(&self) -> (b: bool)
        ensures
            b == get_bit32(self.0, 29),
    {
        read_bit_u32(self.0, 29)
    }

    pub fn set_tx_ant_pattern(&mut self, v: bool)
        ensures
            final(self).0 == set_bit32(old(self).0, 29, v),
    {
        self.0 = write_bit_u32(self.0, 29, v);
    }

    pub fn ext_nss_bw(&self) -> (r: u32)
        ensures
            r == get_bits32(self.0, 30, 0x3),
    {
        read_bits_u32(self.0, 30, 0x3)
    }

    pub fn set_ext_nss_bw(&mut self, v: u32) -> (res: Result<(), String>)
        ensures
            (match res {
                Ok(()) => v <= 0x3
                    && final(self).0 == set_bits32(old(self).0, 30, 0x3, v),
                Err(m) => v > 0x3 && *final(self) == *old(self)
                    && m@ == "bitfield is only 2 bit wide, "@ + decimal_chars(v as u128)
                        + " invalid"@,
            }),
    {
        if v > 0x3 {
            Err(compose_message("bitfield is only 2 bit wide, ", v as u128, " invalid"))
        } else {
            self.0 = write_bits_u32(self.0, 30, 0x3, v);
            Ok(())
        }
    }

}

/// IEEE Std 802.11-2016, Table 9-249: 0 is 3895, 1 is 7991, 2 is 11454 octets; 3 is reserved.
#[derive(Debug, PartialOrd, PartialEq, Clone, Copy)]
pub struct MaxMpduLen(pub u8);

/// IEEE Std 802.11-2016, Table 9-249: 0 no feedback, 2 unsolicited, 3 both.
#[derive(Debug, PartialOrd, PartialEq, Clone, Copy)]
pub struct VhtLinkAdaptation(pub u8);

/// IEEE Std 802.11-2016, 9.4.2.158.3: the supported VHT-MCS and NSS set; data rates are in Mbps, rounded down; bits 62 and 63 are reserved.
#[derive(PartialEq, Eq, Hash, Clone, Copy, Debug)]
pub struct VhtMcsNssSet(pub u64);

impl VhtMcsNssSet {

    pub fn rx_max_mcs(&self) -> (r: VhtMcsNssMap)
        ensures
            r.0 == get_bits64(self.0, 0, 0xffff) as u16,
    {
        VhtMcsNssMap(read_bits_u64(self.0, 0, 0xffff) as u16)
    }

    pub fn set_rx_max_mcs(&mut self, v: VhtMcsNssMap) -> (res: Result<(), String>)
        ensures
            (match res {
                Ok(()) => v.0 <= 0xffff
                    && final(self).0 == set_bits64(old(self).0, 0, 0xffff, (v.0 as u64)),
                Err(m) => v.0 > 0xffff && *final(self) == *old(self)
                    && m@ == "bitfield is only 16 bit wide, "@ + decimal_chars(v.0 as u128)
                        + " invalid"@,
            }),
    {
        if v.0 > 0xffff {
            Err(compose_message("bitfield is only 16 bit wide, ", v.0 as u128, " invalid"))
        } else {
            self.0 = write_bits_u64(self.0, 0, 0xffff, (v.0 as u64));
            Ok(())
        }
    }

    pub fn rx_max_data_rate(&self) -> (r: u64)
        ensures
            r == get_bits64(self.0, 16, 0x1fff),
    {
        read_bits_u64(self.0, 16, 0x1fff)
    }

    pub fn set_rx_max_data_rate(&mut self, v: u64) -> (res: Result<(), String>)
        ensures
            (match res {
                Ok(()) => v <= 0x1fff
                    && final(self).0 == set_bits64(old(self).0, 16, 0x1fff, v),
                Err(m) => v > 0x1fff && *final(self) == *old(self)
                    && m@ == "bitfield is only 13 bit wide, "@ + decimal_chars(v as u128)
                        + " invalid"@,
            }),
    {
        if v > 0x1fff {
            Err(compose_message("bitfield is only 13 bit wide, ", v as u128, " invalid"))
        } else {
            self.0 = write_bits_u64(self.0, 16, 0x1fff, v);
            Ok(())
        }
    }

    pub fn max_nsts(&self) -> (r: u64)
        ensures
            r == get_bits64(self.0, 29, 0x7),
    {
        read_bits_u64(self.0, 29, 0x7)
    }

    pub fn set_max_nsts(&mut self, v: u64) -> (res: Result<(), String>)
        ensures
            (match res {
                Ok(()) => v <= 0x7
                    && final(self).0 == set_bits64(old(self).0, 29, 0x7, v),
                Err(m) => v > 0x7 && *final(self) == *old(self)
                    && m@ == "bitfield is only 3 bit wide, "@ + decimal_chars(v as u128)
                        + " invalid"@,
            }),
    {
        if v > 0x7 {
            Err(compose_message("bitfield is only 3 bit wide, ", v as u128, " invalid"))
        } else {
            self.0 = write_bits_u64(self.0, 29, 0x7, v);
            Ok(())
        }
    }

    pub fn tx_max_mcs(&self) -> (r: VhtMcsNssMap)
        ensures
            r.0 == get_bits64(self.0, 32, 0xffff) as u16,
    {
        VhtMcsNssMap(read_bits_u64(self.0, 32, 0xffff) as u16)
    }

    pub fn set_tx_max_mcs(&mut self, v: VhtMcsNssMap) -> (res: Result<(), String>)
        ensures
            (match res {
                Ok(()) => v.0 <= 0xffff
                    && final(self).0 == set_bits64(old(self).0, 32, 0xffff, (v.0 as u64)),
                Err(m) => v.0 > 0xffff && *final(self) == *old(self)
                    && m@ == "bitfield is only 16 bit wide, "@ + decimal_chars(v.0 as u128)
                        + " invalid"@,
            }),
    {
        if v.0 > 0xffff {
            Err(compose_message("bitfield is only 16 bit wide, ", v.0 as u128, " invalid"))
        } else {
            self.0 = write_bits_u64(self.0, 32, 0xffff, (v.0 as u64));
            Ok(())
        }
    }

    pub fn tx_max_data_rate(&self) -> (r: u64)
        ensures
            r == get_bits64(self.0, 48, 0x1fff),
    {
        read_bits_u64(self.0, 48, 0x1fff)
    }

    pub fn set_tx_max_data_rate(&mut self, v: u64) -> (res: Result<(), String>)
        ensures
            (match res {
                Ok(()) => v <= 0x1fff
                    && final(self).0 == set_bits64(old(self).0, 48, 0x1fff, v),
                Err(m) => v > 0x1fff && *final(self) == *old(self)
                    && m@ == "bitfield is only 13 bit wide, "@ + decimal_chars(v as u128)
                        + " invalid"@,
            }),
    {
        if v > 0x1fff {
            Err(compose_message("bitfield is only 13 bit wide, ", v as u128, " invalid"))
        } else {
            self.0 = write_bits_u64(self.0, 48, 0x1fff, v);
            Ok(())
        }
    }

    pub fn ext_nss_bw(&self) -> (b: bool)
        ensures
            b == get_bit64(self.0, 61),
    {
        read_bit_u64(self.0, 61)
    }

    pub fn set_ext_nss_bw(&mut self, v: bool)
        ensures
            final(self).0 == set_bit64(old(self).0, 61, v),
    {
        self.0 = write_bit_u64(self.0, 61, v);
    }

}

/// IEEE Std 802.11-2016, Figure 9-562: one two-bit value per spatial stream.
#[derive(PartialEq, Eq, Hash, Clone, Copy, Debug)]
pub struct VhtMcsNssMap(pub u16);

impl VhtMcsNssMap {

    pub fn ss1(&self) -> (r: VhtMcsSet)
        ensures
            r.0 == get_bits16(self.0, 0, 0x3) as u8,
    {
        VhtMcsSet(read_bits_u16(self.0, 0, 0x3) as u8)
    }

    pub fn set_ss1(&mut self, v: VhtMcsSet) -> (res: Result<(), String>)
        ensures
            (match res {
                Ok(()) => v.0 <= 0x3
                    && final(self).0 == set_bits16(old(self).0, 0, 0x3, (v.0 as u16)),
                Err(m) => v.0 > 0x3 && *final(self) == *old(self)
                    && m@ == "bitfield is only 2 bit wide, "@ + decimal_chars(v.0 as u128)
                        + " invalid"@,
            }),
    {
        if v.0 > 0x3 {
            Err(compose_message("bitfield is only 2 bit wide, ", v.0 as u128, " invalid"))
        } else {
            self.0 = write_bits_u16(self.0, 0, 0x3, (v.0 as u16));
            Ok(())
        }
    }

    pub fn ss2(&self) -> (r: VhtMcsSet)
        ensures
            r.0 == get_bits16(self.0, 2, 0x3) as u8,
    {
        VhtMcsSet(read_bits_u16(self.0, 2, 0x3) as u8)
    }

    pub fn set_ss2(&mut self, v: VhtMcsSet) -> (res: Result<(), String>)
        ensures
            (match res {
                Ok(()) => v.0 <= 0x3
                    && final(self).0 == set_bits16(old(self).0, 2, 0x3, (v.0 as u16)),
                Err(m) => v.0 > 0x3 && *final(self) == *old(self)
                    && m@ == "bitfield is only 2 bit wide, "@ + decimal_chars(v.0 as u128)
                        + " invalid"@,
            }),
    {
        if v.0 > 0x3 {
            Err(compose_message("bitfield is only 2 bit wide, ", v.0 as u128, " invalid"))
        } else {
            self.0 = write_bits_u16(self.0, 2, 0x3, (v.0 as u16));
            Ok(())
        }
    }

    pub fn ss3(&self) -> (r: VhtMcsSet)
        ensures
            r.0 == get_bits16(self.0, 4, 0x3) as u8,
    {
        VhtMcsSet(read_bits_u16(self.0, 4, 0x3) as u8)
    }

    pub fn set_ss3(&mut self, v: VhtMcsSet) -> (res: Result<(), String>)
        ensures
            (match res {
                Ok(()) => v.0 <= 0x3
                    && final(self).0 == set_bits16(old(self).0, 4, 0x3, (v.0 as u16)),
                Err(m) => v.0 > 0x3 && *final(self) == *old(self)
                    && m@ == "bitfield is only 2 bit wide, "@ + decimal_chars(v.0 as u128)
                        + " invalid"@,
            }),
    {
        if v.0 > 0x3 {
            Err(compose_message("bitfield is only 2 bit wide, ", v.0 as u128, " invalid"))
        } else {
            self.0 = write_bits_u16(self.0, 4, 0x3, (v.0 as u16));
            Ok(())
        }
    }

    pub fn ss4(&self) -> (r: VhtMcsSet)
        ensures
            r.0 == get_bits16(self.0, 6, 0x3) as u8,
    {
        VhtMcsSet(read_bits_u16(self.0, 6, 0x3) as u8)
    }

    pub fn set_ss4(&mut self, v: VhtMcsSet) -> (res: Result<(), String>)
        ensures
            (match res {
                Ok(()) => v.0 <= 0x3
                    && final(self).0 == set_bits16(old(self).0, 6, 0x3, (v.0 as u16)),
                Err(m) => v.0 > 0x3 && *final(self) == *old(self)
                    && m@ == "bitfield is only 2 bit wide, "@ + decimal_chars(v.0 as u128)
                        + " invalid"@,
            }),
    {
        if v.0 > 0x3 {
            Err(compose_message("bitfield is only 2 bit wide, ", v.0 as u128, " invalid"))
        } else {
            self.0 = write_bits_u16(self.0, 6, 0x3, (v.0 as u16));
            Ok(())
        }
    }

    pub fn ss5(&self) -> (r: VhtMcsSet)
        ensures
            r.0 == get_bits16(self.0, 8, 0x3) as u8,
    {
        VhtMcsSet(read_bits_u16(self.0, 8, 0x3) as u8)
    }

    pub fn set_ss5(&mut self, v: VhtMcsSet) -> (res: Result<(), String>)
        ensures
            (match res {
                Ok(()) => v.0 <= 0x3
                    && final(self).0 == set_bits16(old(self).0, 8, 0x3, (v.0 as u16)),
                Err(m) => v.0 > 0x3 && *final(self) == *old(self)
                    && m@ == "bitfield is only 2 bit wide, "@ + decimal_chars(v.0 as u128)
                        + " invalid"@,
            }),
    {
        if v.0 > 0x3 {
            Err(compose_message("bitfield is only 2 bit wide, ", v.0 as u128, " invalid"))
        } else {
            self.0 = write_bits_u16(self.0, 8, 0x3, (v.0 as u16));
            Ok(())
        }
    }

    pub fn ss6(&self) -> (r: VhtMcsSet)
        ensures
            r.0 == get_bits16(self.0, 10, 0x3) as u8,
    {
        VhtMcsSet(read_bits_u16(self.0, 10, 0x3) as u8)
    }

    pub fn set_ss6(&mut self, v: VhtMcsSet) -> (res: Result<(), String>)
        ensures
            (match res {
                Ok(()) => v.0 <= 0x3
                    && final(self).0 == set_bits16(old(self).0, 10, 0x3, (v.0 as u16)),
                Err(m) => v.0 > 0x3 && *final(self) == *old(self)
                    && m@ == "bitfield is only 2 bit wide, "@ + decimal_chars(v.0 as u128)
                        + " invalid"@,
            }),
    {
        if v.0 > 0x3 {
            Err(compose_message("bitfield is only 2 bit wide, ", v.0 as u128, " invalid"))
        } else {
            self.0 = write_bits_u16(self.0, 10, 0x3, (v.0 as u16));
            Ok(())
        }
    }

    pub fn ss7(&self) -> (r: VhtMcsSet)
        ensures
            r.0 == get_bits16(self.0, 12, 0x3) as u8,
    {
        VhtMcsSet(read_bits_u16(self.0, 12, 0x3) as u8)
    }

    pub fn set_ss7(&mut self, v: VhtMcsSet) -> (res: Result<(), String>)
        ensures
            (match res {
                Ok(()) => v.0 <= 0x3
                    && final(self).0 == set_bits16(old(self).0, 12, 0x3, (v.0 as u16)),
                Err(m) => v.0 > 0x3 && *final(self) == *old(self)
                    && m@ == "bitfield is only 2 bit wide, "@ + decimal_chars(v.0 as u128)
                        + " invalid"@,
            }),
    {
        if v.0 > 0x3 {
            Err(compose_message("bitfield is only 2 bit wide, ", v.0 as u128, " invalid"))
        } else {
            self.0 = write_bits_u16(self.0, 12, 0x3, (v.0 as u16));
            Ok(())
        }
    }

    pub fn ss8(&self) -> (r: VhtMcsSet)
        ensures
            r.0 == get_bits16(self.0, 14, 0x3) as u8,
    {
        VhtMcsSet(read_bits_u16(self.0, 14, 0x3) as u8)
    }

    pub fn set_ss8(&mut self, v: VhtMcsSet) -> (res: Result<(), String>)
        ensures
            (match res {
                Ok(()) => v.0 <= 0x3
                    && final(self).0 == set_bits16(old(self).0, 14, 0x3, (v.0 as u16)),
                Err(m) => v.0 > 0x3 && *final(self) == *old(self)
                    && m@ == "bitfield is only 2 bit wide, "@ + decimal_chars(v.0 as u128)
                        + " invalid"@,
            }),
    {
        if v.0 > 0x3 {
            Err(compose_message("bitfield is only 2 bit wide, ", v.0 as u128, " invalid"))
        } else {
            self.0 = write_bits_u16(self.0, 14, 0x3, (v.0 as u16));
            Ok(())
        }
    }

}

impl VhtMcsNssMap {
    /// The two-bit value for spatial stream `num`, counted from 1 to 8.
    pub fn ss(&self, num: u8) -> (res: Result<VhtMcsSet, String>)
        ensures
            (match res {
                Ok(v) => 1 <= num <= 8
                    && v.0 == get_bits16(self.0, (2 * (num - 1)) as u16, 0x3) as u8,
                Err(m) => (num == 0 || num > 8)
                    && m@ == "spatial stream number must be between 1 and 8, "@
                        + decimal_chars(num as u128) + " invalid"@,
            }),
    {
        if num >= 1 && num <= 8 {
            Ok(VhtMcsSet(read_bits_u16(self.0, 2 * (num - 1) as u16, 0x3) as u8))
        } else {
            Err(compose_message(
                "spatial stream number must be between 1 and 8, ",
                num as u128,
                " invalid",
            ))
        }
    }

    /// Replaces the two-bit value for spatial stream `num`, counted from 1
    /// to 8, leaving every other bit unchanged; a stream number or value out
    /// of range is rejected without touching the map.
    pub fn set_ss(&mut self, num: u8, val: VhtMcsSet) -> (res: Result<(), String>)
        ensures
            (match res {
                Ok(()) => 1 <= num <= 8 && val.0 <= 3
                    && final(self).0 == set_bits16(
                        old(self).0,
                        (2 * (num - 1)) as u16,
                        0x3,
                        val.0 as u16,
                    ),
                Err(m) => *final(self) == *old(self)
                    && ((num == 0 || num > 8)
                        && m@ == "spatial stream number must be between 1 and 8, "@
                            + decimal_chars(num as u128) + " invalid"@
                    || (1 <= num <= 8 && val.0 > 3)
                        && m@ == "bitfield is only 2 bit wide, "@
                            + decimal_chars(val.0 as u128) + " invalid"@),
            }),
    {
        if num == 0 || num > 8 {
            Err(compose_message(
                "spatial stream number must be between 1 and 8, ",
                num as u128,
                " invalid",
            ))
        } else if val.0 > 3 {
            Err(compose_message(
                "bitfield is only 2 bit wide, ",
                val.0 as u128,
                " invalid",
            ))
        } else {
            self.0 = write_bits_u16(self.0, 2 * (num - 1) as u16, 0x3, val.0 as u16);
            Ok(())
        }
    }
}

/// The VHT-MCS ceiling for one spatial stream: 0 up to MCS 7, 1 up to 8, 2 up to 9, 3 none.
#[derive(Debug, PartialOrd, PartialEq, Clone, Copy)]
pub struct VhtMcsSet(pub u8);

/// IEEE Std 802.11-2016, 9.4.2.159: the VHT operation element body; the center frequency segments are channel indexes.
#[derive(PartialEq, Eq, Hash, Clone, Copy, Debug)]
pub struct VhtOperation {
    pub vht_cbw: VhtChannelBandwidth,
    pub center_freq_seg0: u8,
    pub center_freq_seg1: u8,
    pub basic_mcs_nss: VhtMcsNssMap,
}

impl VhtOperation {
    /// The exact 5-byte wire image.
    pub open spec fn spec_encode(self) -> Seq<u8> {
        seq![self.vht_cbw.0]
            + seq![self.center_freq_seg0]
            + seq![self.center_freq_seg1]
            + u16_le_bytes(self.basic_mcs_nss.0)
    }

    /// Whether this value is what a 5-byte window `b` decodes to.
    pub open spec fn decodes_from(h: Self, b: Seq<u8>) -> bool {
        &&& h.vht_cbw.0 == b[0]
        &&& h.center_freq_seg0 == b[1]
        &&& h.center_freq_seg1 == b[2]
        &&& h.basic_mcs_nss.0 == u16_from_le(b[3], b[4])
    }

    /// Reads the structure if at least 5 bytes remain; otherwise leaves
    /// the cursor unmoved.
    pub fn read_from(r: &mut BufferReader) -> (res: Option<Self>)
        requires
            old(r).wf(),
        ensures
            final(r).wf(),
            final(r).bytes() == old(r).bytes(),
            match res {
                Some(h) => old(r).remaining_spec().len() >= 5
                    && Self::decodes_from(h, old(r).remaining_spec().subrange(0, 5))
                    && final(r).pos_spec() == old(r).pos_spec() + 5,
                None => old(r).remaining_spec().len() < 5
                    && final(r).pos_spec() == old(r).pos_spec(),
            },
    {
        if r.bytes_remaining() < 5 {
            return None;
        }
        let ghost r0 = *r;
        let vht_cbw = VhtChannelBandwidth(r.read_u8().unwrap());
        let center_freq_seg0 = r.read_u8().unwrap();
        let center_freq_seg1 = r.read_u8().unwrap();
        let basic_mcs_nss = VhtMcsNssMap(r.read_u16_le().unwrap());
        let h = VhtOperation { vht_cbw, center_freq_seg0, center_freq_seg1, basic_mcs_nss };
        proof {
            let b = r0.remaining_spec().subrange(0, 5);

            assert(Self::decodes_from(h, b));
        }
        Some(h)
    }

    /// Writes the 5-byte wire image, or fails without writing anything
    /// if the buffer cannot hold it.
    pub fn write_to(&self, w: &mut BufferWriter) -> (res: Result<(), Error>)
        requires
            old(w).wf(),
        ensures
            final(w).wf(),
            final(w).cap_spec() == old(w).cap_spec(),
            match res {
                Ok(()) => old(w).cap_spec() - old(w).written().len() >= 5
                    && final(w).written() == old(w).written() + self.spec_encode(),
                Err(e) => e == Error::BufferTooSmall
                    && old(w).cap_spec() - old(w).written().len() < 5
                    && *final(w) == *old(w),
            },
    {
        if w.remaining_cap() < 5 {
            return Err(Error::BufferTooSmall);
        }
        let ghost w0 = *w;
        w.append_u8(self.vht_cbw.0);
        w.append_u8(self.center_freq_seg0);
        w.append_u8(self.center_freq_seg1);
        w.append_u16_le(self.basic_mcs_nss.0);
        assert(w.written() =~= w0.written() + self.spec_encode());
        Ok(())
    }

    /// Decoding the wire image of a value yields that value and no other:
    /// the encoding is lossless, reserved bits included.
    pub proof fn lemma_roundtrip(self, other: Self)
        requires
            Self::decodes_from(other, self.spec_encode()),
        ensures
            other == self,
    {
        broadcast use vstd::array::group_array_axioms;
        crate::wire::lemma_u16_le_roundtrip(self.basic_mcs_nss.0);

    }
}

/// IEEE Std 802.11-2016, Table 9-252: 0 is 20 or 40 MHz, 1 is 80, 160 or 80+80 MHz; 2 and 3 are deprecated.
#[derive(Debug, PartialOrd, PartialEq, Eq, Hash, Clone, Copy)]
pub struct VhtChannelBandwidth(pub u8);

} // verus!
