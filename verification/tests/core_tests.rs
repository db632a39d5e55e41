use wlan_mlme::buffer_reader::BufferReader;
use wlan_mlme::buffer_writer::BufferWriter;
use wlan_mlme::error::Error;
use wlan_mlme::frame_writer::write_open_auth_frame;
use wlan_mlme::fields::{
    BitmapControl, DsssParamSet, PerrDestinationFlags, PerrDestinationHeader, PerrHeader,
    PrepFlags, PrepHeader, PrepTail, PreqFlags, PreqHeader, PreqMiddle, PreqPerTarget,
    PreqPerTargetFlags, TimHeader,
};
use wlan_mlme::mac::{
    AssocReqHdr, AssocRespHdr, AuthHdr, AuthAlgorithmNumber, Bssid, CapabilityInfo, DeauthHdr,
    FixedDataHdrFields, FrameControl, LlcHdr, MgmtHdr, PsPoll, ReasonCode, SequenceControl,
    StatusCode, write_eth_frame,
};
use wlan_mlme::sequence::SequenceManager;
use wlan_mlme::timer::Timer;

#[test]
fn sequence_numbers_cycle_once_through_all_values() {
    let mut mgr = SequenceManager::new();
    let mut seen = vec![false; 4096];
    let mut last = 0u16;
    for _ in 0..4096 {
        let sn = mgr.next(0) as usize;
        assert!(sn < 4096);
        assert!(!seen[sn], "a value repeated before the counter wrapped");
        seen[sn] = true;
        last = sn as u16;
    }
    assert!(seen.iter().all(|s| *s));
    // the 4096th value wraps to 0, and the cycle then restarts at 1
    assert_eq!(last, 0);
    assert_eq!(mgr.next(0), 1);
}

#[test]
fn sequence_counters_are_independent() {
    let mut mgr = SequenceManager::new();
    assert_eq!(mgr.next(0), 1);
    assert_eq!(mgr.next(0), 2);
    assert_eq!(mgr.next(5), 1);
    assert_eq!(mgr.next(16), 1);
    assert_eq!(mgr.next(0), 3);
}

#[test]
fn timer_schedules_and_cancels() {
    let mut timer: Timer<u32> = Timer::new();
    let a = timer.schedule(10, 7);
    let b = timer.schedule(20, 8);
    assert_ne!(a, b);
    assert_eq!(timer.num_pending(), 2);
    timer.cancel(a);
    assert_eq!(timer.num_pending(), 1);
    timer.cancel(a);
    assert_eq!(timer.num_pending(), 1);
    timer.cancel(b);
    assert_eq!(timer.num_pending(), 0);
}

#[test]
fn mgmt_hdr_round_trip() {
    let hdr = MgmtHdr {
        frame_ctrl: FrameControl(0xbeef),
        duration: 0x1234,
        addr1: [1, 2, 3, 4, 5, 6],
        addr2: [7, 8, 9, 10, 11, 12],
        addr3: [13, 14, 15, 16, 17, 18],
        seq_ctrl: SequenceControl(0xfff0),
    };
    let mut w = BufferWriter::new(24);
    hdr.write_to(&mut w).expect("fits");
    let bytes = w.into_vec();
    let mut r = BufferReader::new(&bytes[..]);
    assert_eq!(MgmtHdr::read_from(&mut r).expect("whole"), hdr);
    assert_eq!(r.bytes_remaining(), 0);
}

#[test]
fn auth_hdr_round_trip() {
    let hdr = AuthHdr {
        auth_alg_num: AuthAlgorithmNumber(0),
        auth_txn_seq_num: 2,
        status_code: StatusCode(17),
    };
    let mut w = BufferWriter::new(6);
    hdr.write_to(&mut w).expect("fits");
    let bytes = w.into_vec();
    assert_eq!(bytes, vec![0, 0, 2, 0, 17, 0]);
    let mut r = BufferReader::new(&bytes[..]);
    assert_eq!(AuthHdr::read_from(&mut r).expect("whole"), hdr);
}

#[test]
fn llc_hdr_uses_big_endian_protocol_id() {
    let hdr = LlcHdr {
        dsap: 0xAA,
        ssap: 0xAA,
        control: 0x03,
        oui: [0, 0, 0],
        protocol_id: 0x888E,
    };
    let mut w = BufferWriter::new(8);
    hdr.write_to(&mut w).expect("fits");
    let bytes = w.into_vec();
    assert_eq!(bytes, vec![0xAA, 0xAA, 0x03, 0, 0, 0, 0x88, 0x8E]);
    let mut r = BufferReader::new(&bytes[..]);
    assert_eq!(LlcHdr::read_from(&mut r).expect("whole"), hdr);
}

#[test]
fn writer_rejects_frames_beyond_capacity() {
    let mut w = BufferWriter::new(10);
    let r = write_open_auth_frame(&mut w, Bssid([6; 6]), [7; 6], 1);
    assert_eq!(r, Err(Error::BufferTooSmall));
    assert_eq!(w.bytes_written(), 0);
}

#[test]
fn eth_frame_rejects_oversized_payload() {
    let mut w = BufferWriter::new(16);
    let r = write_eth_frame(&mut w, [1; 6], [2; 6], 0x0800, &[0u8; 3]);
    assert_eq!(r, Err(Error::BufferTooSmall));
    assert_eq!(w.bytes_written(), 0);
    let mut w = BufferWriter::new(17);
    write_eth_frame(&mut w, [1; 6], [2; 6], 0x0800, &[9u8; 3]).expect("fits");
    assert_eq!(w.into_vec(), vec![1, 1, 1, 1, 1, 1, 2, 2, 2, 2, 2, 2, 8, 0, 9, 9, 9]);
}

#[test]
fn reader_reads_little_endian_integers() {
    let bytes = [0x01u8, 0x02, 0x03, 0x04, 0x05, 0x06, 0x07, 0x08, 0x09];
    let mut r = BufferReader::new(&bytes[..]);
    assert_eq!(r.read_u16_le(), Some(0x0201));
    assert_eq!(r.read_u32_le(), Some(0x06050403));
    assert_eq!(r.read_u16_be(), Some(0x0708));
    assert_eq!(r.bytes_remaining(), 1);
    assert_eq!(r.read_u8(), Some(0x09));
    assert_eq!(r.read_u8(), None);
}

#[test]
fn fixed_data_hdr_round_trip() {
    let hdr = FixedDataHdrFields {
        frame_ctrl: FrameControl(0x0148),
        duration: 0,
        addr1: [6; 6],
        addr2: [7; 6],
        addr3: [6; 6],
        seq_ctrl: SequenceControl(0x0010),
    };
    let mut w = BufferWriter::new(24);
    hdr.write_to(&mut w).expect("fits");
    let bytes = w.into_vec();
    let mut r = BufferReader::new(&bytes[..]);
    assert_eq!(FixedDataHdrFields::read_from(&mut r).expect("whole"), hdr);
}

#[test]
fn small_header_round_trips() {
    let assoc_req = AssocReqHdr { capabilities: CapabilityInfo(0xffff), listen_interval: 7 };
    let mut w = BufferWriter::new(4);
    assoc_req.write_to(&mut w).expect("fits");
    let bytes = w.into_vec();
    let mut r = BufferReader::new(&bytes[..]);
    assert_eq!(AssocReqHdr::read_from(&mut r).expect("whole"), assoc_req);

    let assoc_resp = AssocRespHdr {
        capabilities: CapabilityInfo(0x1234),
        status_code: StatusCode(17),
        aid: 0xc001,
    };
    let mut w = BufferWriter::new(6);
    assoc_resp.write_to(&mut w).expect("fits");
    let bytes = w.into_vec();
    let mut r = BufferReader::new(&bytes[..]);
    assert_eq!(AssocRespHdr::read_from(&mut r).expect("whole"), assoc_resp);

    let deauth = DeauthHdr { reason_code: ReasonCode(47) };
    let mut w = BufferWriter::new(2);
    deauth.write_to(&mut w).expect("fits");
    let bytes = w.into_vec();
    assert_eq!(bytes, vec![47, 0]);
    let mut r = BufferReader::new(&bytes[..]);
    assert_eq!(DeauthHdr::read_from(&mut r).expect("whole"), deauth);

    let ps_poll = PsPoll {
        frame_ctrl: FrameControl(0x00A4),
        masked_aid: 0xABCD,
        bssid: Bssid([6; 6]),
        ta: [7; 6],
    };
    let mut w = BufferWriter::new(16);
    ps_poll.write_to(&mut w).expect("fits");
    let bytes = w.into_vec();
    let mut r = BufferReader::new(&bytes[..]);
    assert_eq!(PsPoll::read_from(&mut r).expect("whole"), ps_poll);
}

#[test]
fn mesh_header_round_trips() {
    let dsss = DsssParamSet { current_chan: 11 };
    let mut w = BufferWriter::new(1);
    dsss.write_to(&mut w).expect("fits");
    let bytes = w.into_vec();
    let mut r = BufferReader::new(&bytes[..]);
    assert_eq!(DsssParamSet::read_from(&mut r).expect("whole"), dsss);

    let tim = TimHeader { dtim_count: 1, dtim_period: 3, bmp_ctrl: BitmapControl(0xff) };
    let mut w = BufferWriter::new(3);
    tim.write_to(&mut w).expect("fits");
    let bytes = w.into_vec();
    let mut r = BufferReader::new(&bytes[..]);
    assert_eq!(TimHeader::read_from(&mut r).expect("whole"), tim);

    let perr = PerrHeader { element_ttl: 9, num_destinations: 2 };
    let mut w = BufferWriter::new(2);
    perr.write_to(&mut w).expect("fits");
    let bytes = w.into_vec();
    let mut r = BufferReader::new(&bytes[..]);
    assert_eq!(PerrHeader::read_from(&mut r).expect("whole"), perr);

    let dest = PerrDestinationHeader {
        flags: PerrDestinationFlags(0x40),
        dest_addr: [1, 2, 3, 4, 5, 6],
        hwmp_seqno: 0xdeadbeef,
    };
    let mut w = BufferWriter::new(11);
    dest.write_to(&mut w).expect("fits");
    let bytes = w.into_vec();
    let mut r = BufferReader::new(&bytes[..]);
    assert_eq!(PerrDestinationHeader::read_from(&mut r).expect("whole"), dest);

    let preq = PreqHeader {
        flags: PreqFlags(0x47),
        hop_count: 1,
        element_ttl: 2,
        path_discovery_id: 0x12345678,
        originator_addr: [9; 6],
        originator_hwmp_seqno: 0x9abcdef0,
    };
    let mut w = BufferWriter::new(17);
    preq.write_to(&mut w).expect("fits");
    let bytes = w.into_vec();
    let mut r = BufferReader::new(&bytes[..]);
    assert_eq!(PreqHeader::read_from(&mut r).expect("whole"), preq);

    let middle = PreqMiddle { lifetime: 1, metric: 2, target_count: 3 };
    let mut w = BufferWriter::new(9);
    middle.write_to(&mut w).expect("fits");
    let bytes = w.into_vec();
    let mut r = BufferReader::new(&bytes[..]);
    assert_eq!(PreqMiddle::read_from(&mut r).expect("whole"), middle);

    let target = PreqPerTarget {
        flags: PreqPerTargetFlags(0x05),
        target_addr: [8; 6],
        target_hwmp_seqno: 42,
    };
    let mut w = BufferWriter::new(11);
    target.write_to(&mut w).expect("fits");
    let bytes = w.into_vec();
    let mut r = BufferReader::new(&bytes[..]);
    assert_eq!(PreqPerTarget::read_from(&mut r).expect("whole"), target);

    let prep = PrepHeader {
        flags: PrepFlags(0x40),
        hop_count: 4,
        element_ttl: 5,
        target_addr: [2; 6],
        target_hwmp_seqno: 77,
    };
    let mut w = BufferWriter::new(13);
    prep.write_to(&mut w).expect("fits");
    let bytes = w.into_vec();
    let mut r = BufferReader::new(&bytes[..]);
    assert_eq!(PrepHeader::read_from(&mut r).expect("whole"), prep);

    let tail = PrepTail {
        lifetime: 6,
        metric: 7,
        originator_addr: [3; 6],
        originator_hwmp_seqno: 88,
    };
    let mut w = BufferWriter::new(18);
    tail.write_to(&mut w).expect("fits");
    let bytes = w.into_vec();
    let mut r = BufferReader::new(&bytes[..]);
    assert_eq!(PrepTail::read_from(&mut r).expect("whole"), tail);
}
