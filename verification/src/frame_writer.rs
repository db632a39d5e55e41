//! Builders for the frames the client station transmits.
//!
//! Each builder appends one complete frame to a buffer writer and states the
//! exact bytes it appends; the information-element lengths are computed
//! precisely, so a caller can size the buffer before allocating it.

use vstd::prelude::*;
use crate::buffer_writer::BufferWriter;
use crate::error::Error;
use crate::mac::{
    AssocReqHdr, AuthAlgorithmNumber, AuthHdr, Bssid, CapabilityInfo, DeauthHdr,
    FixedDataHdrFields, FrameControl, LlcHdr, MacAddr, MgmtHdr, PsPoll, ReasonCode,
    SequenceControl, StatusCode, Aid,
};

verus! {

/// An information element: its tag, one length byte, then the body.
pub open spec fn ie_bytes(id: u8, body: Seq<u8>) -> Seq<u8> {
    seq![id, body.len() as u8] + body
}

/// The management header used for every frame sent to the joined BSS:
/// receiver and BSSID are the access point, the transmitter is the station.
pub open spec fn mgmt_hdr_to_bss(fc: u16, bssid: Bssid, iface_mac: MacAddr, sn: u16) -> MgmtHdr {
    MgmtHdr {
        frame_ctrl: FrameControl(fc),
        duration: 0,
        addr1: bssid.0,
        addr2: iface_mac,
        addr3: bssid.0,
        seq_ctrl: SequenceControl(sn << 4),
    }
}

/// An Open System authentication request: transaction 1, status 0.
pub open spec fn open_auth_frame_bytes(bssid: Bssid, iface_mac: MacAddr, sn: u16) -> Seq<u8> {
    mgmt_hdr_to_bss(0x00B0, bssid, iface_mac, sn).spec_encode() + (AuthHdr {
        auth_alg_num: AuthAlgorithmNumber(0),
        auth_txn_seq_num: 1,
        status_code: StatusCode(0),
    }).spec_encode()
}

/// Appends an Open System authentication frame.
pub fn write_open_auth_frame(
    w: &mut BufferWriter,
    bssid: Bssid,
    iface_mac: MacAddr,
    sn: u16,
) -> (res: Result<(), Error>)
    requires
        old(w).wf(),
        sn < 4096,
    ensures
        final(w).wf(),
        final(w).cap_spec() == old(w).cap_spec(),
        match res {
            Ok(()) => old(w).cap_spec() - old(w).written().len() >= 30
                && final(w).written() == old(w).written() + open_auth_frame_bytes(
                    bssid,
                    iface_mac,
                    sn,
                ),
            Err(e) => e == Error::BufferTooSmall
                && old(w).cap_spec() - old(w).written().len() < 30
                && *final(w) == *old(w),
        },
{
    if w.remaining_cap() < 30 {
        return Err(Error::BufferTooSmall);
    }
    let ghost w0 = *w;
    let hdr = MgmtHdr {
        frame_ctrl: FrameControl(0x00B0),
        duration: 0,
        addr1: bssid.0,
        addr2: iface_mac,
        addr3: bssid.0,
        seq_ctrl: SequenceControl(sn << 4u16),
    };
    let _ = hdr.write_to(w);
    let body = AuthHdr {
        auth_alg_num: AuthAlgorithmNumber(0),
        auth_txn_seq_num: 1,
        status_code: StatusCode(0),
    };
    let _ = body.write_to(w);
    assert(w.written() =~= w0.written() + open_auth_frame_bytes(bssid, iface_mac, sn));
    Ok(())
}

/// A deauthentication notification with the given reason code.
pub open spec fn deauth_frame_bytes(
    bssid: Bssid,
    iface_mac: MacAddr,
    sn: u16,
    reason_code: ReasonCode,
) -> Seq<u8> {
    mgmt_hdr_to_bss(0x00C0, bssid, iface_mac, sn).spec_encode() + (DeauthHdr {
        reason_code,
    }).spec_encode()
}

/// Appends a deauthentication frame.
pub fn write_deauth_frame(
    w: &mut BufferWriter,
    bssid: Bssid,
    iface_mac: MacAddr,
    sn: u16,
    reason_code: ReasonCode,
) -> (res: Result<(), Error>)
    requires
        old(w).wf(),
        sn < 4096,
    ensures
        final(w).wf(),
        final(w).cap_spec() == old(w).cap_spec(),
        match res {
            Ok(()) => old(w).cap_spec() - old(w).written().len() >= 26
                && final(w).written() == old(w).written() + deauth_frame_bytes(
                    bssid,
                    iface_mac,
                    sn,
                    reason_code,
                ),
            Err(e) => e == Error::BufferTooSmall
                && old(w).cap_spec() - old(w).written().len() < 26
                && *final(w) == *old(w),
        },
{
    if w.remaining_cap() < 26 {
        return Err(Error::BufferTooSmall);
    }
    let ghost w0 = *w;
    let hdr = MgmtHdr {
        frame_ctrl: FrameControl(0x00C0),
        duration: 0,
        addr1: bssid.0,
        addr2: iface_mac,
        addr3: bssid.0,
        seq_ctrl: SequenceControl(sn << 4u16),
    };
    let _ = hdr.write_to(w);
    let _ = (DeauthHdr { reason_code }).write_to(w);
    assert(w.written() =~= w0.written() + deauth_frame_bytes(bssid, iface_mac, sn, reason_code));
    Ok(())
}

/// A keep-alive response: a NULL data frame to the BSS.
pub open spec fn keep_alive_resp_frame_bytes(
    bssid: Bssid,
    iface_mac: MacAddr,
    sn: u16,
) -> Seq<u8> {
    (FixedDataHdrFields {
        frame_ctrl: FrameControl(0x0148),
        duration: 0,
        addr1: bssid.0,
        addr2: iface_mac,
        addr3: bssid.0,
        seq_ctrl: SequenceControl(sn << 4),
    }).spec_encode()
}

/// Appends a keep-alive NULL data frame.
pub fn write_keep_alive_resp_frame(
    w: &mut BufferWriter,
    bssid: Bssid,
    iface_mac: MacAddr,
    sn: u16,
) -> (res: Result<(), Error>)
    requires
        old(w).wf(),
        sn < 4096,
    ensures
        final(w).wf(),
        final(w).cap_spec() == old(w).cap_spec(),
        match res {
            Ok(()) => old(w).cap_spec() - old(w).written().len() >= 24
                && final(w).written() == old(w).written() + keep_alive_resp_frame_bytes(
                    bssid,
                    iface_mac,
                    sn,
                ),
            Err(e) => e == Error::BufferTooSmall
                && old(w).cap_spec() - old(w).written().len() < 24
                && *final(w) == *old(w),
        },
{
    if w.remaining_cap() < 24 {
        return Err(Error::BufferTooSmall);
    }
    let ghost w0 = *w;
    let hdr = FixedDataHdrFields {
        frame_ctrl: FrameControl(0x0148),
        duration: 0,
        addr1: bssid.0,
        addr2: iface_mac,
        addr3: bssid.0,
        seq_ctrl: SequenceControl(sn << 4u16),
    };
    let _ = hdr.write_to(w);
    assert(w.written() =~= w0.written() + keep_alive_resp_frame_bytes(bssid, iface_mac, sn));
    Ok(())
}

/// The frame control of an outgoing data frame to the BSS: type data, the
/// to-DS flag, the QoS subtype bit and the protected flag as requested.
pub open spec fn data_frame_fc(is_protected: bool, is_qos: bool) -> u16 {
    0x0108u16 | (if is_qos { 0x0080u16 } else { 0u16 }) | (if is_protected {
        0x4000u16
    } else {
        0u16
    })
}

/// A data frame to the BSS carrying one LLC-framed payload; a QoS frame
/// gets a zeroed QoS control field.
pub open spec fn data_frame_bytes(
    bssid: Bssid,
    src: MacAddr,
    dst: MacAddr,
    sn: u16,
    is_protected: bool,
    is_qos: bool,
    ether_type: u16,
    payload: Seq<u8>,
) -> Seq<u8> {
    (FixedDataHdrFields {
        frame_ctrl: FrameControl(data_frame_fc(is_protected, is_qos)),
        duration: 0,
        addr1: bssid.0,
        addr2: src,
        addr3: dst,
        seq_ctrl: SequenceControl(sn << 4),
    }).spec_encode() + (if is_qos { seq![0u8, 0u8] } else { Seq::<u8>::empty() }) + (LlcHdr {
        dsap: 0xAA,
        ssap: 0xAA,
        control: 0x03,
        oui: [0, 0, 0],
        protocol_id: ether_type,
    }).spec_encode() + payload
}

/// Appends a data frame carrying the payload behind an LLC/SNAP header.
pub fn write_data_frame(
    w: &mut BufferWriter,
    bssid: Bssid,
    src: MacAddr,
    dst: MacAddr,
    sn: u16,
    is_protected: bool,
    is_qos: bool,
    ether_type: u16,
    payload: &[u8],
) -> (res: Result<(), Error>)
    requires
        old(w).wf(),
        sn < 4096,
        payload@.len() + 34 <= usize::MAX,
    ensures
        final(w).wf(),
        final(w).cap_spec() == old(w).cap_spec(),
        match res {
            Ok(()) => old(w).cap_spec() - old(w).written().len() >= 32 + (if is_qos {
                2int
            } else {
                0int
            }) + payload@.len() && final(w).written() == old(w).written() + data_frame_bytes(
                bssid,
                src,
                dst,
                sn,
                is_protected,
                is_qos,
                ether_type,
                payload@,
            ),
            Err(e) => e == Error::BufferTooSmall && old(w).cap_spec() - old(w).written().len()
                < 32 + (if is_qos { 2int } else { 0int }) + payload@.len()
                && *final(w) == *old(w),
        },
{
    let qos_len: usize = if is_qos { 2 } else { 0 };
    if w.remaining_cap() < 32 + qos_len + payload.len() {
        return Err(Error::BufferTooSmall);
    }
    let ghost w0 = *w;
    let fc: u16 = 0x0108u16 | (if is_qos { 0x0080u16 } else { 0u16 }) | (if is_protected {
        0x4000u16
    } else {
        0u16
    });
    let hdr = FixedDataHdrFields {
        frame_ctrl: FrameControl(fc),
        duration: 0,
        addr1: bssid.0,
        addr2: src,
        addr3: dst,
        seq_ctrl: SequenceControl(sn << 4u16),
    };
    let _ = hdr.write_to(w);
    if is_qos {
        w.append_u8(0);
        w.append_u8(0);
    }
    let llc = LlcHdr { dsap: 0xAA, ssap: 0xAA, control: 0x03, oui: [0, 0, 0], protocol_id:
        ether_type };
    let _ = llc.write_to(w);
    w.append_bytes(payload);
    assert(w.written() =~= w0.written() + data_frame_bytes(
        bssid,
        src,
        dst,
        sn,
        is_protected,
        is_qos,
        ether_type,
        payload@,
    ));
    Ok(())
}

/// A PS-Poll control frame.
pub open spec fn ps_poll_frame_bytes(aid: Aid, bssid: Bssid, ta: MacAddr) -> Seq<u8> {
    (PsPoll { frame_ctrl: FrameControl(0x00A4), masked_aid: aid, bssid, ta }).spec_encode()
}

/// Appends a PS-Poll frame.
pub fn write_ps_poll_frame(
    w: &mut BufferWriter,
    aid: Aid,
    bssid: Bssid,
    ta: MacAddr,
) -> (res: Result<(), Error>)
    requires
        old(w).wf(),
    ensures
        final(w).wf(),
        final(w).cap_spec() == old(w).cap_spec(),
        match res {
            Ok(()) => old(w).cap_spec() - old(w).written().len() >= 16
                && final(w).written() == old(w).written() + ps_poll_frame_bytes(aid, bssid, ta),
            Err(e) => e == Error::BufferTooSmall
                && old(w).cap_spec() - old(w).written().len() < 16
                && *final(w) == *old(w),
        },
{
    if w.remaining_cap() < 16 {
        return Err(Error::BufferTooSmall);
    }
    let ghost w0 = *w;
    let _ = (PsPoll { frame_ctrl: FrameControl(0x00A4), masked_aid: aid, bssid, ta }).write_to(
        w,
    );
    assert(w.written() =~= w0.written() + ps_poll_frame_bytes(aid, bssid, ta));
    Ok(())
}

/// Appends one information element: tag, length byte, body.
pub fn write_ie(w: &mut BufferWriter, id: u8, body: &[u8])
    requires
        old(w).wf(),
        body@.len() <= 255,
        old(w).written().len() + 2 + body@.len() <= old(w).cap_spec(),
    ensures
        final(w).wf(),
        final(w).cap_spec() == old(w).cap_spec(),
        final(w).written() == old(w).written() + ie_bytes(id, body@),
{
    let ghost w0 = *w;
    w.append_u8(id);
    w.append_u8(body.len() as u8);
    w.append_bytes(body);
    assert(w.written() =~= w0.written() + ie_bytes(id, body@));
}

/// The information elements of an association request: the SSID, the first
/// eight supported rates, the remaining rates as an extended element only
/// if there are any, and the optional RSNE (re-framed under its canonical
/// tag with a recomputed length), HT and VHT capability elements, each only
/// if supplied.
pub open spec fn assoc_req_ies_bytes(
    ssid: Seq<u8>,
    rates: Seq<u8>,
    rsne: Seq<u8>,
    ht_cap: Seq<u8>,
    vht_cap: Seq<u8>,
) -> Seq<u8> {
    ie_bytes(0, ssid) + ie_bytes(1, if rates.len() <= 8 {
        rates
    } else {
        rates.subrange(0, 8)
    }) + (if rates.len() > 8 {
        ie_bytes(50, rates.subrange(8, rates.len() as int))
    } else {
        Seq::<u8>::empty()
    }) + (if rsne.len() > 0 {
        ie_bytes(48, rsne.subrange(2, rsne.len() as int))
    } else {
        Seq::<u8>::empty()
    }) + (if ht_cap.len() > 0 {
        ie_bytes(45, ht_cap)
    } else {
        Seq::<u8>::empty()
    }) + (if vht_cap.len() > 0 {
        ie_bytes(191, vht_cap)
    } else {
        Seq::<u8>::empty()
    })
}

/// The space the information elements of an association request take.
pub open spec fn assoc_req_ies_len(
    ssid: Seq<u8>,
    rates: Seq<u8>,
    rsne: Seq<u8>,
    ht_cap: Seq<u8>,
    vht_cap: Seq<u8>,
) -> int {
    2 + ssid.len() + 2 + (if rates.len() <= 8 { rates.len() as int } else { 8int })
        + (if rates.len() > 8 { 2 + rates.len() as int - 8 } else { 0int })
        + (if rsne.len() > 0 { rsne.len() as int } else { 0int })
        + (if ht_cap.len() > 0 { 2 + ht_cap.len() as int } else { 0int })
        + (if vht_cap.len() > 0 { 2 + vht_cap.len() as int } else { 0int })
}

/// Appends the information elements of an association request.
#[verifier::rlimit(100)]
pub fn write_assoc_req_ies(
    w: &mut BufferWriter,
    ssid: &[u8],
    rates: &[u8],
    rsne: &[u8],
    ht_cap: &[u8],
    vht_cap: &[u8],
)
    requires
        old(w).wf(),
        ssid@.len() <= 255,
        1 <= rates@.len() <= 263,
        rsne@.len() == 0 || 4 <= rsne@.len() <= 257,
        ht_cap@.len() == 0 || ht_cap@.len() == 26,
        vht_cap@.len() == 0 || vht_cap@.len() == 12,
        old(w).written().len() + assoc_req_ies_len(ssid@, rates@, rsne@, ht_cap@, vht_cap@)
            <= old(w).cap_spec(),
    ensures
        final(w).wf(),
        final(w).cap_spec() == old(w).cap_spec(),
        final(w).written() == old(w).written() + assoc_req_ies_bytes(
            ssid@,
            rates@,
            rsne@,
            ht_cap@,
            vht_cap@,
        ),
{
    let ghost w0 = *w;
    write_ie(w, 0, ssid);
    let ghost f1 = ie_bytes(0, ssid@);
    let rates_first: usize = if rates.len() <= 8 { rates.len() } else { 8 };
    let rates_head = vstd::slice::slice_subrange(rates, 0, rates_first);
    write_ie(w, 1, rates_head);
    let ghost f2;
    proof {
        assert(rates_head@ == (if rates@.len() <= 8 { rates@ } else { rates@.subrange(0, 8) }))
            by {
            if rates@.len() <= 8 {
                assert(rates@.subrange(0, rates@.len() as int) =~= rates@);
            }
        }
        let p = ie_bytes(1, if rates@.len() <= 8 { rates@ } else { rates@.subrange(0, 8) });
        vstd::seq_lib::lemma_concat_associative(w0.written(), f1, p);
        f2 = f1 + p;
        assert(w.written() == w0.written() + f2);
    }
    let ghost f3;
    if rates.len() > 8 {
        let rates_tail = vstd::slice::slice_subrange(rates, 8, rates.len());
        write_ie(w, 50, rates_tail);
        proof {
            let p = ie_bytes(50, rates@.subrange(8, rates@.len() as int));
            vstd::seq_lib::lemma_concat_associative(w0.written(), f2, p);
            f3 = f2 + p;
            assert(w.written() == w0.written() + f3);
        }
    } else {
        proof {
            assert(f2 + Seq::<u8>::empty() =~= f2);
            f3 = f2 + Seq::<u8>::empty();
            assert(w.written() == w0.written() + f3);
        }
    }
    let ghost f4;
    if rsne.len() > 0 {
        let rsne_body = vstd::slice::slice_subrange(rsne, 2, rsne.len());
        write_ie(w, 48, rsne_body);
        proof {
            let p = ie_bytes(48, rsne@.subrange(2, rsne@.len() as int));
            vstd::seq_lib::lemma_concat_associative(w0.written(), f3, p);
            f4 = f3 + p;
            assert(w.written() == w0.written() + f4);
        }
    } else {
        proof {
            assert(f3 + Seq::<u8>::empty() =~= f3);
            f4 = f3 + Seq::<u8>::empty();
            assert(w.written() == w0.written() + f4);
        }
    }
    let ghost f5;
    if ht_cap.len() > 0 {
        write_ie(w, 45, ht_cap);
        proof {
            let p = ie_bytes(45, ht_cap@);
            vstd::seq_lib::lemma_concat_associative(w0.written(), f4, p);
            f5 = f4 + p;
            assert(w.written() == w0.written() + f5);
        }
    } else {
        proof {
            assert(f4 + Seq::<u8>::empty() =~= f4);
            f5 = f4 + Seq::<u8>::empty();
            assert(w.written() == w0.written() + f5);
        }
    }
    let ghost f6;
    if vht_cap.len() > 0 {
        write_ie(w, 191, vht_cap);
        proof {
            let p = ie_bytes(191, vht_cap@);
            vstd::seq_lib::lemma_concat_associative(w0.written(), f5, p);
            f6 = f5 + p;
            assert(w.written() == w0.written() + f6);
        }
    } else {
        proof {
            assert(f5 + Seq::<u8>::empty() =~= f5);
            f6 = f5 + Seq::<u8>::empty();
            assert(w.written() == w0.written() + f6);
        }
    }
    assert(f6 == assoc_req_ies_bytes(ssid@, rates@, rsne@, ht_cap@, vht_cap@));
}

/// The exact bytes of an association request: the management header, the
/// fixed fields, then the information elements.
pub open spec fn assoc_req_frame_bytes(
    bssid: Bssid,
    iface_mac: MacAddr,
    sn: u16,
    cap_info: u16,
    ssid: Seq<u8>,
    rates: Seq<u8>,
    rsne: Seq<u8>,
    ht_cap: Seq<u8>,
    vht_cap: Seq<u8>,
) -> Seq<u8> {
    mgmt_hdr_to_bss(0x0000, bssid, iface_mac, sn).spec_encode() + (AssocReqHdr {
        capabilities: CapabilityInfo(cap_info),
        listen_interval: 0,
    }).spec_encode() + assoc_req_ies_bytes(ssid, rates, rsne, ht_cap, vht_cap)
}

/// Appends an association request frame. The caller supplies each optional
/// element as raw bytes, empty when absent.
pub fn write_assoc_req_frame(
    w: &mut BufferWriter,
    bssid: Bssid,
    iface_mac: MacAddr,
    sn: u16,
    cap_info: u16,
    ssid: &[u8],
    rates: &[u8],
    rsne: &[u8],
    ht_cap: &[u8],
    vht_cap: &[u8],
) -> (res: Result<(), Error>)
    requires
        old(w).wf(),
        sn < 4096,
        ssid@.len() <= 255,
        1 <= rates@.len() <= 263,
        rsne@.len() == 0 || 4 <= rsne@.len() <= 257,
        ht_cap@.len() == 0 || ht_cap@.len() == 26,
        vht_cap@.len() == 0 || vht_cap@.len() == 12,
    ensures
        final(w).wf(),
        final(w).cap_spec() == old(w).cap_spec(),
        match res {
            Ok(()) => final(w).written() == old(w).written() + assoc_req_frame_bytes(
                bssid,
                iface_mac,
                sn,
                cap_info,
                ssid@,
                rates@,
                rsne@,
                ht_cap@,
                vht_cap@,
            ),
            Err(e) => e == Error::BufferTooSmall && *final(w) == *old(w)
                && old(w).cap_spec() - old(w).written().len() < 28 + assoc_req_ies_len(
                    ssid@,
                    rates@,
                    rsne@,
                    ht_cap@,
                    vht_cap@,
                ),
        },
{
    let rates_first: usize = if rates.len() <= 8 { rates.len() } else { 8 };
    let rates_ext: usize = rates.len() - rates_first;
    let total: usize = 28 + 2 + ssid.len() + 2 + rates_first
        + (if rates_ext > 0 { 2 + rates_ext } else { 0 })
        + (if rsne.len() > 0 { rsne.len() } else { 0 })
        + (if ht_cap.len() > 0 { 2 + ht_cap.len() } else { 0 })
        + (if vht_cap.len() > 0 { 2 + vht_cap.len() } else { 0 });
    assert(total == 28 + assoc_req_ies_len(ssid@, rates@, rsne@, ht_cap@, vht_cap@));
    if w.remaining_cap() < total {
        return Err(Error::BufferTooSmall);
    }
    let ghost w0 = *w;
    let hdr = MgmtHdr {
        frame_ctrl: FrameControl(0x0000),
        duration: 0,
        addr1: bssid.0,
        addr2: iface_mac,
        addr3: bssid.0,
        seq_ctrl: SequenceControl(sn << 4u16),
    };
    let _ = hdr.write_to(w);
    let ghost f1 = mgmt_hdr_to_bss(0x0000, bssid, iface_mac, sn).spec_encode();
    let _ = (AssocReqHdr { capabilities: CapabilityInfo(cap_info), listen_interval: 0 })
        .write_to(w);
    let ghost f2;
    proof {
        let p = (AssocReqHdr { capabilities: CapabilityInfo(cap_info), listen_interval: 0 })
            .spec_encode();
        vstd::seq_lib::lemma_concat_associative(w0.written(), f1, p);
        f2 = f1 + p;
        assert(w.written() == w0.written() + f2);
    }
    write_assoc_req_ies(w, ssid, rates, rsne, ht_cap, vht_cap);
    proof {
        let p = assoc_req_ies_bytes(ssid@, rates@, rsne@, ht_cap@, vht_cap@);
        vstd::seq_lib::lemma_concat_associative(w0.written(), f2, p);
        assert(w.written() == w0.written() + (f2 + p));
    }
    Ok(())
}

} // verus!
