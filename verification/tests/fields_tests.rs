use wlan_mlme::fields::{
    AmpduParams, HtCapabilities, HtCapabilityInfo, HtOperation, MaxAmpduExponent, MpmHeader,
    MpmProtocol, NumAntennas, NumCsiRows, NumSpaceTimeStreams, NumSpatialStreams,
    PerrDestinationListView, RxMcsBitmask, VhtCapabilities, VhtCapabilitiesInfo, VhtMcsNssMap,
    VhtMcsNssSet, VhtMcsSet, VhtOperation, parse_mpm_close, parse_mpm_confirm, parse_mpm_open,
    parse_perr, parse_prep, parse_preq, parse_tim,
};
use wlan_mlme::buffer_reader::BufferReader;
use wlan_mlme::buffer_writer::BufferWriter;

#[test]
fn perr_iter_empty() {
    let empty: [u8; 0] = [];
    let mut iter = PerrDestinationListView(&empty[..]).into_iter();
    assert!(iter.next().is_none());
    assert_eq!(0, iter.bytes_remaining());
}

#[test]
fn perr_iter_two_destinations() {
    let data = [
        // Destination 1
        0x40, // flags: address extension
        0x10, 0x20, 0x30, 0x40, 0x50, 0x60, // dest addr
        0x11, 0x22, 0x33, 0x44, // HWMP seqno
        0x1a, 0x2a, 0x3a, 0x4a, 0x5a, 0x6a, // ext addr
        0x55, 0x66, // reason code
        // Destination 2
        0, // flags
        0xa0, 0xb0, 0xc0, 0xd0, 0xe0, 0xf0, // dest addr
        0x77, 0x88, 0x99, 0xaa, // HWMP seqno
        0xbb, 0xcc, // reason code
    ];
    let mut iter = PerrDestinationListView(&data[..]).into_iter();
    assert!(iter.bytes_remaining() > 0);

    {
        let target = iter.next().expect("expected first target");
        assert_eq!(0x44332211, target.header.hwmp_seqno);
        let ext_addr = target.ext_addr.expect("expected external addr");
        assert_eq!([0x1a, 0x2a, 0x3a, 0x4a, 0x5a, 0x6a], ext_addr);
        assert_eq!(0x6655, target.reason_code.0);
    }

    assert!(iter.bytes_remaining() > 0);

    {
        let target = iter.next().expect("expected second target");
        assert_eq!(0xaa998877, target.header.hwmp_seqno);
        assert!(target.ext_addr.is_none());
        assert_eq!(0xccbb, target.reason_code.0);
    }

    assert_eq!(0, iter.bytes_remaining());
    assert!(iter.next().is_none());
    assert_eq!(0, iter.bytes_remaining());
}

#[test]
fn perr_iter_too_short_for_header() {
    let data = [
        0x00, // flags: no address extension
        0x10, 0x20, 0x30, 0x40, 0x50, 0x60, // dest addr
        0x11, 0x22, 0x33, // one byte missing from HWMP seqno
    ];
    let mut iter = PerrDestinationListView(&data[..]).into_iter();
    assert_eq!(data.len(), iter.bytes_remaining());
    assert!(iter.next().is_none());
    assert_eq!(data.len(), iter.bytes_remaining());
}

#[test]
fn perr_iter_too_short_for_ext_addr() {
    let data = [
        // Destination 1
        0x40, // flags: address extension
        0x10, 0x20, 0x30, 0x40, 0x50, 0x60, // dest addr
        0x11, 0x22, 0x33, 0x44, // HWMP seqno
        0x1a, 0x2a, 0x3a, 0x4a, 0x5a, // one byte missing from ext addr
    ];
    let mut iter = PerrDestinationListView(&data[..]).into_iter();
    assert_eq!(data.len(), iter.bytes_remaining());
    assert!(iter.next().is_none());
    assert_eq!(data.len(), iter.bytes_remaining());
}

#[test]
fn perr_iter_too_short_for_reason_code() {
    let data = [
        // Target 1
        0x40, // flags: address extension
        0x10, 0x20, 0x30, 0x40, 0x50, 0x60, // dest addr
        0x11, 0x22, 0x33, 0x44, // HWMP seqno
        0x1a, 0x2a, 0x3a, 0x4a, 0x5a, 0x6a, // ext addr
        0x55, // one byte missing from the reason code
    ];
    let mut iter = PerrDestinationListView(&data[..]).into_iter();
    assert_eq!(data.len(), iter.bytes_remaining());
    assert!(iter.next().is_none());
    assert_eq!(data.len(), iter.bytes_remaining());
}

#[test]
fn vht_mcs_nss_map_accessor() {
    let mut map = VhtMcsNssMap(0x00ff);
    assert_eq!(map.ss(1), Ok(VhtMcsSet(3)));
    assert_eq!(map.ss(5), Ok(VhtMcsSet(0)));
    assert_eq!(map.set_ss(1, VhtMcsSet(2)), Ok(()));
    assert_eq!(map.set_ss(8, VhtMcsSet(3)), Ok(()));
    assert_eq!(map.ss(1), Ok(VhtMcsSet(2)));
    assert_eq!(map.ss(8), Ok(VhtMcsSet(3)));
    assert_eq!(map.0, 0xc0fe);
}

#[test]
fn vht_mcs_nss_map_accssor_error() {
    let mut map = VhtMcsNssMap(0);
    assert_eq!(
        map.ss(0),
        Err("spatial stream number must be between 1 and 8, 0 invalid".to_string())
    );
    assert_eq!(
        map.ss(9),
        Err("spatial stream number must be between 1 and 8, 9 invalid".to_string())
    );
    assert_eq!(
        map.set_ss(0, VhtMcsSet(3)),
        Err("spatial stream number must be between 1 and 8, 0 invalid".to_string())
    );
    assert_eq!(
        map.set_ss(9, VhtMcsSet(3)),
        Err("spatial stream number must be between 1 and 8, 9 invalid".to_string())
    );
    assert_eq!(
        map.set_ss(1, VhtMcsSet(4)),
        Err("bitfield is only 2 bit wide, 4 invalid".to_string())
    );
}

#[test]
fn vht_mcs_nss_map_exact_pattern() {
    // setting spatial stream 1 to 2 and spatial stream 8 to 3 on an
    // all-zero map populates exactly those two 2-bit fields
    let mut map = VhtMcsNssMap(0);
    assert_eq!(map.set_ss(1, VhtMcsSet(2)), Ok(()));
    assert_eq!(map.set_ss(8, VhtMcsSet(3)), Ok(()));
    assert_eq!(map.0, 0xc002);
    // out-of-range stream numbers and values are rejected without mutation
    assert!(map.set_ss(0, VhtMcsSet(1)).is_err());
    assert!(map.set_ss(9, VhtMcsSet(1)).is_err());
    assert!(map.set_ss(2, VhtMcsSet(4)).is_err());
    assert_eq!(map.0, 0xc002);
}

#[test]
fn bitfield_set_get_is_noop() {
    let mut cap = HtCapabilityInfo(0xbeef);
    let width = cap.chan_width_set();
    assert_eq!(cap.set_chan_width_set(width), Ok(()));
    assert_eq!(cap.0, 0xbeef);
    let stbc = cap.rx_stbc();
    assert_eq!(cap.set_rx_stbc(stbc), Ok(()));
    assert_eq!(cap.0, 0xbeef);
    let gf = cap.greenfield();
    cap.set_greenfield(gf);
    assert_eq!(cap.0, 0xbeef);
}

#[test]
fn bitfield_set_out_of_range_fails_without_mutation() {
    let mut cap = HtCapabilityInfo(0x1234);
    assert_eq!(
        cap.set_rx_stbc(4),
        Err("bitfield is only 2 bit wide, 4 invalid".to_string())
    );
    assert_eq!(cap.0, 0x1234);
    let mut params = AmpduParams(0x5a);
    assert!(params.set_max_ampdu_exponent(MaxAmpduExponent(4)).is_err());
    assert_eq!(params.0, 0x5a);
}

#[test]
fn bitfield_set_replaces_exactly_the_range() {
    let mut cap = HtCapabilityInfo(0);
    assert_eq!(cap.set_rx_stbc(0b11), Ok(()));
    assert_eq!(cap.0, 0b11 << 8);
    cap.set_tx_stbc(true);
    assert_eq!(cap.0, (0b11 << 8) | (1 << 7));
    cap.set_tx_stbc(false);
    assert_eq!(cap.0, 0b11 << 8);
}

#[test]
fn max_ampdu_exponent_to_len() {
    assert_eq!(MaxAmpduExponent(0).to_len(), 8191);
    assert_eq!(MaxAmpduExponent(3).to_len(), 65535);
    assert_eq!(MaxAmpduExponent(7).to_len(), 1048575);
}

#[test]
fn rx_mcs_bitmask_support() {
    let mask = RxMcsBitmask(0b1000_0001);
    assert!(mask.support(0));
    assert!(!mask.support(1));
    assert!(mask.support(7));
    assert!(!mask.support(76));
    assert!(!mask.support(77));
    assert!(!mask.support(255));
}

#[test]
fn human_counts_round_trip() {
    for v in 1..=4u8 {
        assert_eq!(NumSpatialStreams::from_human(v).unwrap().to_human(), v);
        assert_eq!(NumAntennas::from_human(v).unwrap().to_human(), v);
        assert_eq!(NumCsiRows::from_human(v).unwrap().to_human(), v);
        assert_eq!(NumSpaceTimeStreams::from_human(v).unwrap().to_human(), v);
    }
}

#[test]
fn human_counts_out_of_range() {
    assert_eq!(
        NumSpatialStreams::from_human(0),
        Err("Number of spatial stream must be between 1 and 4. 0 is invalid".to_string())
    );
    assert_eq!(
        NumSpatialStreams::from_human(5),
        Err("Number of spatial stream must be between 1 and 4. 5 is invalid".to_string())
    );
    assert_eq!(
        NumAntennas::from_human(200),
        Err("Number of antennas must be between 1 and 4. 200 is invalid".to_string())
    );
    assert_eq!(
        NumCsiRows::from_human(5),
        Err("Number of csi rows must be between 1 and 4. 5 is invalid".to_string())
    );
    assert_eq!(
        NumSpaceTimeStreams::from_human(0),
        Err("Number of channel estimation must be between 1 and 4. 0 is invalid".to_string())
    );
}

#[test]
fn ht_capabilities_round_trip() {
    // reserved bits are set on purpose: the codec must keep them
    let value = HtCapabilities {
        ht_cap_info: HtCapabilityInfo(0xffff),
        ampdu_params: AmpduParams(0xe5),
        mcs_set: wlan_mlme::fields::SupportedMcsSet(0x0123_4567_89ab_cdef_0011_2233_4455_6677),
        ht_ext_cap: wlan_mlme::fields::HtExtCapabilities(0xf00f),
        txbf_cap: wlan_mlme::fields::TxBfCapability(0xdead_beef),
        asel_cap: wlan_mlme::fields::AselCapability(0xa5),
    };
    let mut w = BufferWriter::new(26);
    value.write_to(&mut w).expect("fits");
    let bytes = w.into_vec();
    assert_eq!(bytes.len(), 26);
    let mut r = BufferReader::new(&bytes[..]);
    let back = HtCapabilities::read_from(&mut r).expect("whole");
    assert_eq!(back, value);
    assert_eq!(r.bytes_remaining(), 0);
}

#[test]
fn ht_operation_round_trip() {
    let value = HtOperation {
        primary_chan: 36,
        ht_op_info_head: wlan_mlme::fields::HtOpInfoHead(0xff),
        ht_op_info_tail: wlan_mlme::fields::HtOpInfoTail(0xffff_ffff),
        basic_ht_mcs_set: wlan_mlme::fields::SupportedMcsSet(u128::MAX),
    };
    let mut w = BufferWriter::new(22);
    value.write_to(&mut w).expect("fits");
    let bytes = w.into_vec();
    let mut r = BufferReader::new(&bytes[..]);
    assert_eq!(HtOperation::read_from(&mut r).expect("whole"), value);
}

#[test]
fn vht_capabilities_round_trip() {
    let value = VhtCapabilities {
        vht_cap_info: VhtCapabilitiesInfo(0x89ab_cdef),
        vht_mcs_nss: VhtMcsNssSet(0xfedc_ba98_7654_3210),
    };
    let mut w = BufferWriter::new(12);
    value.write_to(&mut w).expect("fits");
    let bytes = w.into_vec();
    assert_eq!(
        bytes,
        vec![0xef, 0xcd, 0xab, 0x89, 0x10, 0x32, 0x54, 0x76, 0x98, 0xba, 0xdc, 0xfe]
    );
    let mut r = BufferReader::new(&bytes[..]);
    assert_eq!(VhtCapabilities::read_from(&mut r).expect("whole"), value);
}

#[test]
fn vht_operation_round_trip() {
    let value = VhtOperation {
        vht_cbw: wlan_mlme::fields::VhtChannelBandwidth(1),
        center_freq_seg0: 42,
        center_freq_seg1: 106,
        basic_mcs_nss: VhtMcsNssMap(0xfffe),
    };
    let mut w = BufferWriter::new(5);
    value.write_to(&mut w).expect("fits");
    let bytes = w.into_vec();
    assert_eq!(bytes, vec![1, 42, 106, 0xfe, 0xff]);
    let mut r = BufferReader::new(&bytes[..]);
    assert_eq!(VhtOperation::read_from(&mut r).expect("whole"), value);
}

#[test]
fn truncated_read_leaves_cursor_in_place() {
    let bytes = [1u8, 2, 3, 4, 5];
    let mut r = BufferReader::new(&bytes[..]);
    assert!(HtCapabilities::read_from(&mut r).is_none());
    assert_eq!(r.bytes_remaining(), 5);
    assert!(r.read_u32_le().is_some());
    assert!(r.read_u16_le().is_none());
    assert_eq!(r.bytes_remaining(), 1);
}

#[test]
fn tim_parse() {
    let bytes = [1u8, 2, 0x05, 0xaa, 0xbb];
    let view = parse_tim(&bytes[..]).expect("whole");
    assert_eq!(view.header.dtim_count, 1);
    assert_eq!(view.header.dtim_period, 2);
    assert_eq!(view.header.bmp_ctrl.0, 0x05);
    assert_eq!(view.bitmap, &[0xaa, 0xbb]);
    assert!(parse_tim(&bytes[..2]).is_none());
}

#[test]
fn mpm_parse_variants() {
    // open with and without PMK
    let open = [0x01, 0x00, 0x34, 0x12];
    let v = parse_mpm_open(&open[..]).expect("header");
    assert_eq!(v.header.protocol, MpmProtocol(1));
    assert_eq!(v.header.local_link_id, 0x1234);
    assert!(v.pmk.is_none());
    let mut open_pmk = open.to_vec();
    open_pmk.extend_from_slice(&[9u8; 16]);
    let v = parse_mpm_open(&open_pmk[..]).expect("header");
    assert_eq!(v.pmk.expect("pmk").0, [9u8; 16]);

    // confirm carries the peer link id
    let confirm = [0x00, 0x00, 0x34, 0x12, 0x78, 0x56];
    let v = parse_mpm_confirm(&confirm[..]).expect("header");
    assert_eq!(v.peer_link_id, 0x5678);
    assert!(v.pmk.is_none());

    // close: reason only, then link id and reason
    let close_short = [0x00, 0x00, 0x34, 0x12, 0x03, 0x00];
    let v = parse_mpm_close(&close_short[..]).expect("header");
    assert!(v.peer_link_id.is_none());
    assert_eq!(v.reason_code.0, 3);
    let close_link = [0x00, 0x00, 0x34, 0x12, 0x78, 0x56, 0x03, 0x00];
    let v = parse_mpm_close(&close_link[..]).expect("header");
    assert_eq!(v.peer_link_id, Some(0x5678));
    assert_eq!(v.reason_code.0, 3);
}

#[test]
fn preq_parse_with_targets() {
    let mut bytes = vec![
        0x40, // flags: address extension
        2,    // hop count
        3,    // element ttl
        0x11, 0x22, 0x33, 0x44, // path discovery id
        1, 2, 3, 4, 5, 6, // originator addr
        0x55, 0x66, 0x77, 0x88, // originator hwmp seqno
        7, 8, 9, 10, 11, 12, // originator external addr
        0xaa, 0xbb, 0xcc, 0xdd, // lifetime
        0x01, 0x02, 0x03, 0x04, // metric
        2,    // target count
    ];
    bytes.extend_from_slice(&[0x01, 21, 22, 23, 24, 25, 26, 0x9a, 0x78, 0x56, 0x34]);
    bytes.extend_from_slice(&[0x00, 31, 32, 33, 34, 35, 36, 0x0a, 0x0b, 0x0c, 0x0d]);
    let v = parse_preq(&bytes[..]).expect("whole");
    assert_eq!(v.header.hop_count, 2);
    assert_eq!(v.header.path_discovery_id, 0x44332211);
    assert_eq!(v.originator_external_addr, Some([7, 8, 9, 10, 11, 12]));
    assert_eq!(v.middle.target_count, 2);
    assert_eq!(v.targets.len(), 2);
    assert_eq!(v.targets[0].target_addr, [21, 22, 23, 24, 25, 26]);
    assert_eq!(v.targets[0].target_hwmp_seqno, 0x3456789a);
    assert_eq!(v.targets[1].target_addr, [31, 32, 33, 34, 35, 36]);
    // a truncated final target rejects the whole element
    assert!(parse_preq(&bytes[..bytes.len() - 1]).is_none());
}

#[test]
fn prep_parse() {
    let bytes = [
        0x00, // flags: no external address
        1,    // hop count
        2,    // element ttl
        1, 2, 3, 4, 5, 6, // target addr
        0x11, 0x22, 0x33, 0x44, // target hwmp seqno
        0xaa, 0xbb, 0xcc, 0xdd, // lifetime
        0x01, 0x02, 0x03, 0x04, // metric
        9, 8, 7, 6, 5, 4, // originator addr
        0x99, 0x88, 0x77, 0x66, // originator hwmp seqno
    ];
    let v = parse_prep(&bytes[..]).expect("whole");
    assert_eq!(v.header.target_addr, [1, 2, 3, 4, 5, 6]);
    assert!(v.target_external_addr.is_none());
    assert_eq!(v.tail.originator_addr, [9, 8, 7, 6, 5, 4]);
    assert_eq!(v.tail.originator_hwmp_seqno, 0x66778899);
    assert!(parse_prep(&bytes[..30]).is_none());
}

#[test]
fn perr_parse_splits_header_and_records() {
    let bytes = [7u8, 1, 0x00, 1, 2, 3, 4, 5, 6, 0x11, 0x22, 0x33, 0x44, 0x55, 0x66];
    let v = parse_perr(&bytes[..]).expect("whole");
    assert_eq!(v.header.element_ttl, 7);
    assert_eq!(v.header.num_destinations, 1);
    let mut iter = v.destinations.iter();
    let d = iter.next().expect("one destination");
    assert_eq!(d.header.dest_addr, [1, 2, 3, 4, 5, 6]);
    assert_eq!(d.reason_code.0, 0x6655);
    assert!(iter.next().is_none());
    assert!(parse_perr(&bytes[..1]).is_none());
}

#[test]
fn mpm_header_round_trip() {
    let value = MpmHeader { protocol: MpmProtocol(0xabcd), local_link_id: 0x1234 };
    let mut w = BufferWriter::new(4);
    value.write_to(&mut w).expect("fits");
    let bytes = w.into_vec();
    assert_eq!(bytes, vec![0xcd, 0xab, 0x34, 0x12]);
    let mut r = BufferReader::new(&bytes[..]);
    assert_eq!(MpmHeader::read_from(&mut r).expect("whole"), value);
}
