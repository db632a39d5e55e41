use wlan_mlme::client::{Client, States};
use wlan_mlme::device::{
    AuthenticateResultCode, BufferProvider, Device, EapolResultCode, SmeMessage, TxFlags,
};
use wlan_mlme::error::Error;
use wlan_mlme::mac::{Bssid, ReasonCode};

fn make_client_station(device: Device) -> Client {
    Client::new(device, BufferProvider::new(), Bssid([6u8; 6]), [7u8; 6])
}

#[test]
fn client_send_open_auth_frame() {
    let mut client = make_client_station(Device::new());
    client.send_open_auth_frame().expect("error delivering WLAN frame");
    assert_eq!(client.device.wlan_queue.len(), 1);
    assert_eq!(&client.device.wlan_queue[0].0[..], &[
        // Mgmt header:
        0b1011_00_00, 0b00000000, // FC
        0, 0, // Duration
        6, 6, 6, 6, 6, 6, // addr1
        7, 7, 7, 7, 7, 7, // addr2
        6, 6, 6, 6, 6, 6, // addr3
        0x10, 0, // Sequence Control
        // Auth header:
        0, 0, // auth algorithm
        1, 0, // auth txn seq num
        0, 0, // status code
    ][..]);
}

#[test]
fn client_send_assoc_req_frame() {
    let mut client = make_client_station(Device::new());
    client
        .send_assoc_req_frame(
            0x1234,
            &[11, 22, 33, 44],
            &[8, 7, 6, 5, 4, 3, 2, 1, 0],
            &[55, 66, 77, 88],
            &(0..26).collect::<Vec<u8>>()[..],
            &(100..112).collect::<Vec<u8>>()[..],
        )
        .expect("error delivering WLAN frame");
    assert_eq!(client.device.wlan_queue.len(), 1);
    assert_eq!(
        &client.device.wlan_queue[0].0[..],
        &[
            // Mgmt header:
            0, 0, // FC
            0, 0, // Duration
            6, 6, 6, 6, 6, 6, // addr1
            7, 7, 7, 7, 7, 7, // addr2
            6, 6, 6, 6, 6, 6, // addr3
            0x10, 0, // Sequence Control
            // Association Request header:
            0x34, 0x12, // capability info
            0, 0, // listen interval
            // IEs
            0, 4, // SSID id and length
            11, 22, 33, 44, // SSID
            1, 8, // supp rates id and length
            8, 7, 6, 5, 4, 3, 2, 1, // supp rates
            50, 1, // ext supp rates and length
            0, // ext supp rates
            48, 2, // RSNE id and length
            77, 88, // RSNE
            45, 26, // HT Cap id and length
            0, 1, 2, 3, 4, 5, 6, 7, // HT Cap \
            8, 9, 10, 11, 12, 13, 14, 15, // HT Cap \
            16, 17, 18, 19, 20, 21, 22, 23, // HT Cap \
            24, 25, // HT Cap (26 bytes)
            191, 12, // VHT Cap id and length
            100, 101, 102, 103, 104, 105, 106, 107, // VHT Cap \
            108, 109, 110, 111, // VHT Cap (12 bytes)
        ][..]
    );
}

#[test]
fn client_send_keep_alive_resp_frame() {
    let mut client = make_client_station(Device::new());
    client.send_keep_alive_resp_frame().expect("error delivering WLAN frame");
    assert_eq!(client.device.wlan_queue.len(), 1);
    assert_eq!(&client.device.wlan_queue[0].0[..], &[
        // Data header:
        0b0100_10_00, 0b0000000_1, // FC
        0, 0, // Duration
        6, 6, 6, 6, 6, 6, // addr1
        7, 7, 7, 7, 7, 7, // addr2
        6, 6, 6, 6, 6, 6, // addr3
        0x10, 0, // Sequence Control
    ][..]);
}

#[test]
fn client_send_data_frame() {
    let payload = vec![5; 8];
    let mut client = make_client_station(Device::new());
    client
        .send_data_frame([2; 6], [3; 6], false, false, 0x1234, &payload[..])
        .expect("error delivering WLAN frame");
    assert_eq!(client.device.wlan_queue.len(), 1);
    assert_eq!(&client.device.wlan_queue[0].0[..], &[
        // Data header:
        0b0000_10_00, 0b0000000_1, // FC
        0, 0, // Duration
        6, 6, 6, 6, 6, 6, // addr1
        2, 2, 2, 2, 2, 2, // addr2
        3, 3, 3, 3, 3, 3, // addr3
        0x10, 0, // Sequence Control
        // LLC header:
        0xAA, 0xAA, 0x03, // DSAP, SSAP, Control
        0, 0, 0, // OUI
        0x12, 0x34, // Protocol ID
        // Payload
        5, 5, 5, 5, 5, 5, 5, 5,
    ][..]);
}

#[test]
fn client_send_deauthentication_notification() {
    let mut client = make_client_station(Device::new());
    client.send_deauth_frame(ReasonCode(47)).expect("error delivering WLAN frame");
    assert_eq!(client.device.wlan_queue.len(), 1);
    assert_eq!(&client.device.wlan_queue[0].0[..], &[
        // Mgmt header:
        0b1100_00_00, 0b00000000, // FC
        0, 0, // Duration
        6, 6, 6, 6, 6, 6, // addr1
        7, 7, 7, 7, 7, 7, // addr2
        6, 6, 6, 6, 6, 6, // addr3
        0x10, 0, // Sequence Control
        47, 0, // reason code
    ][..]);
}

#[test]
fn respond_to_keep_alive_request() {
    let data_frame = vec![
        // Data header:
        0b0100_10_00, 0b000000_1_0, // FC
        0, 0, // Duration
        6, 6, 6, 6, 6, 6, // addr1
        7, 7, 7, 7, 7, 7, // addr2
        7, 7, 7, 7, 7, 7, // addr3
        0x10, 0, // Sequence Control
    ];
    let mut client = make_client_station(Device::new());
    client.handle_data_frame(&data_frame[..], false, true);
    assert_eq!(&client.device.wlan_queue[0].0[..], &[
        // Data header:
        0b0100_10_00, 0b0000000_1, // FC
        0, 0, // Duration
        6, 6, 6, 6, 6, 6, // addr1
        7, 7, 7, 7, 7, 7, // addr2
        6, 6, 6, 6, 6, 6, // addr3
        0x10, 0, // Sequence Control
    ][..]);
}

fn make_data_frame_single_llc(ethertype: [u8; 2], payload: &[u8]) -> Vec<u8> {
    let mut frame = vec![
        // Data header:
        0b0000_10_00, 0b0000_0010, // FC: data frame, from DS
        0, 0, // Duration
        3, 3, 3, 3, 3, 3, // addr1 (destination)
        1, 1, 1, 1, 1, 1, // addr2
        4, 4, 4, 4, 4, 4, // addr3 (source)
        0x10, 0, // Sequence Control
        // LLC header:
        0xAA, 0xAA, 0x03, // DSAP, SSAP, Control
        0, 0, 0, // OUI
    ];
    frame.extend_from_slice(&ethertype);
    frame.extend_from_slice(payload);
    frame
}

#[test]
fn data_frame_to_ethernet_single_llc() {
    let data_frame = make_data_frame_single_llc([9, 10], &[11, 11, 11]);
    let mut client = make_client_station(Device::new());
    client.handle_data_frame(&data_frame[..], false, true);
    assert_eq!(client.device.eth_queue.len(), 1);
    assert_eq!(client.device.eth_queue[0], [
        3, 3, 3, 3, 3, 3, // dst_addr
        4, 4, 4, 4, 4, 4, // src_addr
        9, 10, // ether_type
        11, 11, 11, // payload
    ]);
}

const MSDU_1_PAYLOAD: &[u8] = &[1, 2, 3, 4, 5];
const MSDU_2_PAYLOAD: &[u8] = &[6, 7, 8, 9, 10, 11];

fn amsdu_frame_header() -> Vec<u8> {
    vec![
        // Data header:
        0b1000_10_00, 0b0000_0010, // FC: QoS data frame, from DS
        0, 0, // Duration
        3, 3, 3, 3, 3, 3, // addr1
        1, 1, 1, 1, 1, 1, // addr2
        4, 4, 4, 4, 4, 4, // addr3
        0x10, 0, // Sequence Control
        0x80, 0x00, // QoS Control: A-MSDU present
    ]
}

fn first_amsdu_subframe() -> Vec<u8> {
    let mut body = vec![
        0x78, 0x8a, 0x20, 0x0d, 0x67, 0x03, // dst_addr
        0xb4, 0xf7, 0xa1, 0xbe, 0xb9, 0xab, // src_addr
        0, 13, // length: LLC header plus five payload bytes
        0xAA, 0xAA, 0x03, // DSAP, SSAP, Control
        0, 0, 0, // OUI
        0x08, 0x00, // ether_type
    ];
    body.extend_from_slice(MSDU_1_PAYLOAD);
    body
}

fn make_data_frame_amsdu() -> Vec<u8> {
    let mut frame = amsdu_frame_header();
    frame.extend_from_slice(&first_amsdu_subframe());
    frame.push(0); // padding to the 4-byte boundary
    frame.extend_from_slice(&[
        0x78, 0x8a, 0x20, 0x0d, 0x67, 0x04, // dst_addr
        0xb4, 0xf7, 0xa1, 0xbe, 0xb9, 0xac, // src_addr
        0, 14, // length: LLC header plus six payload bytes
        0xAA, 0xAA, 0x03, // DSAP, SSAP, Control
        0, 0, 0, // OUI
        0x08, 0x01, // ether_type
    ]);
    frame.extend_from_slice(MSDU_2_PAYLOAD);
    frame
}

#[test]
fn data_frame_to_ethernet_amsdu() {
    let data_frame = make_data_frame_amsdu();
    let mut client = make_client_station(Device::new());
    client.handle_data_frame(&data_frame[..], false, true);
    let queue = &client.device.eth_queue;
    assert_eq!(queue.len(), 2);
    let mut expected_first_eth_frame = vec![
        0x78, 0x8a, 0x20, 0x0d, 0x67, 0x03, // dst_addr
        0xb4, 0xf7, 0xa1, 0xbe, 0xb9, 0xab, // src_addr
        0x08, 0x00, // ether_type
    ];
    expected_first_eth_frame.extend_from_slice(MSDU_1_PAYLOAD);
    assert_eq!(queue[0], &expected_first_eth_frame[..]);
    let mut expected_second_eth_frame = vec![
        0x78, 0x8a, 0x20, 0x0d, 0x67, 0x04, // dst_addr
        0xb4, 0xf7, 0xa1, 0xbe, 0xb9, 0xac, // src_addr
        0x08, 0x01, // ether_type
    ];
    expected_second_eth_frame.extend_from_slice(MSDU_2_PAYLOAD);
    assert_eq!(queue[1], &expected_second_eth_frame[..]);
}

#[test]
fn data_frame_to_ethernet_amsdu_padding_too_short() {
    // the first subframe is whole but its padding byte is missing, so the
    // second subframe never starts; the first MSDU remains valid
    let mut frame = amsdu_frame_header();
    frame.extend_from_slice(&first_amsdu_subframe());
    let mut client = make_client_station(Device::new());
    client.handle_data_frame(&frame[..], false, true);
    let queue = &client.device.eth_queue;
    assert_eq!(queue.len(), 1);
    let mut expected_first_eth_frame = vec![
        0x78, 0x8a, 0x20, 0x0d, 0x67, 0x03, // dst_addr
        0xb4, 0xf7, 0xa1, 0xbe, 0xb9, 0xab, // src_addr
        0x08, 0x00, // ether_type
    ];
    expected_first_eth_frame.extend_from_slice(MSDU_1_PAYLOAD);
    assert_eq!(queue[0], &expected_first_eth_frame[..]);
}

#[test]
fn data_frame_controlled_port_closed() {
    let data_frame = make_data_frame_single_llc([9, 10], &[11, 11, 11]);
    let mut client = make_client_station(Device::new());
    client.handle_data_frame(&data_frame[..], false, false);

    // the frame was dropped silently: no delivery and no report
    assert_eq!(client.device.eth_queue.len(), 0);
    assert_eq!(client.device.sme_queue.len(), 0);
}

const EAPOL_PDU: &[u8] = &[1, 2, 3];

fn make_eapol_frame() -> ([u8; 6], [u8; 6], Vec<u8>) {
    let frame = make_data_frame_single_llc([0x88, 0x8E], EAPOL_PDU);
    ([4; 6], [3; 6], frame)
}

#[test]
fn eapol_frame_controlled_port_closed() {
    let (src_addr, dst_addr, eapol_frame) = make_eapol_frame();
    let mut client = make_client_station(Device::new());
    client.handle_data_frame(&eapol_frame[..], false, false);

    // not delivered to the network stack, but forwarded upward
    assert_eq!(client.device.eth_queue.len(), 0);
    assert_eq!(client.device.sme_queue.len(), 1);
    assert_eq!(
        client.device.sme_queue[0],
        SmeMessage::EapolInd { src_addr, dst_addr, data: EAPOL_PDU.to_vec() }
    );
}

#[test]
fn eapol_frame_is_controlled_port_open() {
    let (src_addr, dst_addr, eapol_frame) = make_eapol_frame();
    let mut client = make_client_station(Device::new());
    client.handle_data_frame(&eapol_frame[..], false, true);

    assert_eq!(client.device.eth_queue.len(), 0);
    assert_eq!(client.device.sme_queue.len(), 1);
    assert_eq!(
        client.device.sme_queue[0],
        SmeMessage::EapolInd { src_addr, dst_addr, data: EAPOL_PDU.to_vec() }
    );
}

#[test]
fn send_eapol_ind_too_large() {
    let mut client = make_client_station(Device::new());
    client
        .send_eapol_indication([1; 6], [2; 6], &[5; 256])
        .expect_err("sending too large EAPOL frame should fail");
    assert!(client.device.sme_queue.is_empty());
}

#[test]
fn send_eapol_ind_success() {
    let mut client = make_client_station(Device::new());
    client
        .send_eapol_indication([1; 6], [2; 6], &[5; 200])
        .expect("expected EAPOL.indication to be sent");
    assert_eq!(client.device.sme_queue.len(), 1);
    assert_eq!(
        client.device.sme_queue[0],
        SmeMessage::EapolInd { src_addr: [1; 6], dst_addr: [2; 6], data: vec![5; 200] }
    );
}

#[test]
fn send_eapol_frame_success() {
    let mut client = make_client_station(Device::new());
    client.send_eapol_frame([7; 6], [6; 6], false, &[5; 8]);

    assert_eq!(client.device.sme_queue.len(), 1);
    assert_eq!(
        client.device.sme_queue[0],
        SmeMessage::EapolConf { result_code: EapolResultCode::Success }
    );

    assert_eq!(&client.device.wlan_queue[0].0[..], &[
        // Data header:
        0b0000_10_00, 0b0000000_1, // FC
        0, 0, // Duration
        6, 6, 6, 6, 6, 6, // addr1
        7, 7, 7, 7, 7, 7, // addr2
        6, 6, 6, 6, 6, 6, // addr3
        0x10, 0, // Sequence Control
        // LLC header:
        0xaa, 0xaa, 0x03, // dsap ssap ctrl
        0x00, 0x00, 0x00, // oui
        0x88, 0x8E, // protocol id (EAPOL)
        // EAPoL PDU:
        5, 5, 5, 5, 5, 5, 5, 5,
    ][..]);
    assert_eq!(client.device.wlan_queue[0].1, TxFlags::FavorReliability);
}

#[test]
fn send_eapol_frame_failure() {
    let mut device = Device::new();
    device.fail_wlan_tx = true;
    let mut client = make_client_station(device);
    client.send_eapol_frame([1; 6], [2; 6], false, &[5; 200]);

    assert_eq!(client.device.sme_queue.len(), 1);
    assert_eq!(
        client.device.sme_queue[0],
        SmeMessage::EapolConf { result_code: EapolResultCode::TransmissionFailure }
    );

    assert!(client.device.wlan_queue.is_empty());
}

#[test]
fn send_ps_poll_frame() {
    let mut client = make_client_station(Device::new());
    client.send_ps_poll_frame(0xABCD).expect("failed sending PS POLL frame");
    assert_eq!(client.device.wlan_queue.len(), 1);
}

fn auth_resp_frame(status: u8) -> Vec<u8> {
    vec![
        0b1011_00_00, 0, // FC: authentication
        0, 0, // Duration
        7, 7, 7, 7, 7, 7, // addr1
        6, 6, 6, 6, 6, 6, // addr2
        6, 6, 6, 6, 6, 6, // addr3 (BSSID)
        0, 0, // Sequence Control
        0, 0, // auth algorithm: open
        2, 0, // auth txn seq num
        status, 0, // status code
    ]
}

#[test]
fn open_authentication_success() {
    let mut client = make_client_station(Device::new());
    client.authenticate(10);
    assert!(matches!(client.state, States::Authenticating { .. }));
    assert_eq!(client.device.wlan_queue.len(), 1);
    assert_eq!(client.timer.num_pending(), 1);

    client.on_mac_frame(&auth_resp_frame(0)[..], false);
    assert_eq!(client.state, States::Authenticated);
    assert_eq!(client.timer.num_pending(), 0);
    assert_eq!(
        client.device.sme_queue[0],
        SmeMessage::AuthenticateConf {
            peer_sta_address: [6; 6],
            result_code: AuthenticateResultCode::Success,
        }
    );
}

#[test]
fn open_authentication_refused() {
    let mut client = make_client_station(Device::new());
    client.authenticate(10);
    client.on_mac_frame(&auth_resp_frame(1)[..], false);
    assert_eq!(client.state, States::Deauthenticated);
    assert_eq!(
        client.device.sme_queue[0],
        SmeMessage::AuthenticateConf {
            peer_sta_address: [6; 6],
            result_code: AuthenticateResultCode::Refused,
        }
    );
}

#[test]
fn authentication_timeout_fires() {
    let mut client = make_client_station(Device::new());
    client.authenticate(10);
    let timeout = match client.state {
        States::Authenticating { timeout } => timeout,
        _ => panic!("expected an authentication in progress"),
    };
    client.handle_timed_event(timeout);
    assert_eq!(client.state, States::Deauthenticated);
    assert_eq!(
        client.device.sme_queue[0],
        SmeMessage::AuthenticateConf {
            peer_sta_address: [6; 6],
            result_code: AuthenticateResultCode::AuthFailureTimeout,
        }
    );
}

#[test]
fn stale_timeout_is_ignored() {
    let mut client = make_client_station(Device::new());
    client.authenticate(10);
    let timeout = match client.state {
        States::Authenticating { timeout } => timeout,
        _ => panic!("expected an authentication in progress"),
    };
    client.on_mac_frame(&auth_resp_frame(0)[..], false);
    let messages = client.device.sme_queue.len();
    client.handle_timed_event(timeout);
    assert_eq!(client.state, States::Authenticated);
    assert_eq!(client.device.sme_queue.len(), messages);
}

#[test]
fn association_lifecycle() {
    let mut client = make_client_station(Device::new());
    client.authenticate(10);
    client.on_mac_frame(&auth_resp_frame(0)[..], false);
    assert_eq!(client.state, States::Authenticated);

    client
        .associate(0x1234, &[1, 2, 3], &[2, 4, 11], &[], &[], &[], 10)
        .expect("association request should go out");
    assert!(matches!(client.state, States::Associating { .. }));

    let assoc_resp = vec![
        0b0001_00_00, 0, // FC: association response
        0, 0, // Duration
        7, 7, 7, 7, 7, 7, // addr1
        6, 6, 6, 6, 6, 6, // addr2
        6, 6, 6, 6, 6, 6, // addr3 (BSSID)
        0, 0, // Sequence Control
        0x34, 0x12, // capability info
        0, 0, // status: success
        1, 0xc0, // AID
    ];
    client.on_mac_frame(&assoc_resp[..], false);
    assert_eq!(client.state, States::Associated);
}

#[test]
fn deauthentication_frame_ends_association() {
    let mut client = make_client_station(Device::new());
    client.authenticate(10);
    client.on_mac_frame(&auth_resp_frame(0)[..], false);

    let deauth = vec![
        0b1100_00_00, 0, // FC: deauthentication
        0, 0, // Duration
        7, 7, 7, 7, 7, 7, // addr1
        6, 6, 6, 6, 6, 6, // addr2
        6, 6, 6, 6, 6, 6, // addr3 (BSSID)
        0, 0, // Sequence Control
        4, 0, // reason code
    ];
    client.on_mac_frame(&deauth[..], false);
    assert_eq!(client.state, States::Deauthenticated);
    assert_eq!(
        client.device.sme_queue.last().expect("an indication"),
        &SmeMessage::DeauthenticateInd { peer_sta_address: [6; 6], reason_code: 4 }
    );
}

#[test]
fn frames_from_other_bss_are_ignored() {
    let mut client = make_client_station(Device::new());
    client.authenticate(10);
    let mut frame = auth_resp_frame(0);
    frame[16] = 9; // not the joined BSSID
    client.on_mac_frame(&frame[..], false);
    assert!(matches!(client.state, States::Authenticating { .. }));
}

#[test]
fn truncated_auth_response_is_ignored() {
    let mut client = make_client_station(Device::new());
    client.authenticate(10);
    let frame = auth_resp_frame(0);
    client.on_mac_frame(&frame[..frame.len() - 1], false);
    assert!(matches!(client.state, States::Authenticating { .. }));
}

#[test]
fn deauthenticate_command_sends_frame() {
    let mut client = make_client_station(Device::new());
    client.authenticate(10);
    client.on_mac_frame(&auth_resp_frame(0)[..], false);
    let frames = client.device.wlan_queue.len();
    client.deauthenticate(ReasonCode(3));
    assert_eq!(client.state, States::Deauthenticated);
    assert_eq!(client.device.wlan_queue.len(), frames + 1);
    let frame = &client.device.wlan_queue[frames].0;
    assert_eq!(frame[0], 0b1100_00_00);
    assert_eq!(&frame[24..26], &[3, 0]);
}

#[test]
fn buffer_allocation_failure_is_reported() {
    let mut client = Client::new(
        Device::new(),
        BufferProvider { fail: true },
        Bssid([6u8; 6]),
        [7u8; 6],
    );
    assert_eq!(client.send_open_auth_frame(), Err(Error::NoResources));
    assert!(client.device.wlan_queue.is_empty());
}

#[test]
fn wlan_transmission_failure_is_reported() {
    let mut device = Device::new();
    device.fail_wlan_tx = true;
    let mut client = make_client_station(device);
    assert_eq!(client.send_open_auth_frame(), Err(Error::CouldNotDeliverWlanFrame));
    assert!(client.device.wlan_queue.is_empty());
}

#[test]
fn eth_delivery_failure_drops_frame() {
    let mut device = Device::new();
    device.fail_eth_tx = true;
    let data_frame = make_data_frame_single_llc([9, 10], &[11, 11, 11]);
    let mut client = make_client_station(device);
    client.handle_data_frame(&data_frame[..], false, true);
    assert!(client.device.eth_queue.is_empty());
}

#[test]
fn sequence_numbers_increase_across_frames() {
    let mut client = make_client_station(Device::new());
    client.send_open_auth_frame().expect("first frame");
    client.send_open_auth_frame().expect("second frame");
    assert_eq!(client.device.wlan_queue[0].0[22..24], [0x10, 0x00]);
    assert_eq!(client.device.wlan_queue[1].0[22..24], [0x20, 0x00]);
}

#[test]
fn authenticate_is_ignored_outside_initial_state() {
    let mut client = make_client_station(Device::new());
    client.authenticate(10);
    let frames = client.device.wlan_queue.len();
    client.authenticate(10);
    assert_eq!(client.device.wlan_queue.len(), frames);
}

#[test]
fn associate_is_ignored_before_authentication() {
    let mut client = make_client_station(Device::new());
    client
        .associate(0, &[1], &[2], &[], &[], &[], 10)
        .expect("an ignored command reports nothing");
    assert_eq!(client.state, States::Deauthenticated);
    assert!(client.device.wlan_queue.is_empty());
}

#[test]
fn association_timeout_returns_to_authenticated() {
    let mut client = make_client_station(Device::new());
    client.authenticate(10);
    client.on_mac_frame(&auth_resp_frame(0)[..], false);
    client.associate(0, &[1], &[2, 4], &[], &[], &[], 10).expect("request goes out");
    let timeout = match client.state {
        States::Associating { timeout } => timeout,
        _ => panic!("expected an association in progress"),
    };
    client.handle_timed_event(timeout);
    assert_eq!(client.state, States::Authenticated);
}

#[test]
fn disassociation_ends_association() {
    let mut client = make_client_station(Device::new());
    client.authenticate(10);
    client.on_mac_frame(&auth_resp_frame(0)[..], false);
    client.associate(0, &[1], &[2, 4], &[], &[], &[], 10).expect("request goes out");
    let assoc_resp = vec![
        0b0001_00_00, 0, // FC: association response
        0, 0, // Duration
        7, 7, 7, 7, 7, 7, // addr1
        6, 6, 6, 6, 6, 6, // addr2
        6, 6, 6, 6, 6, 6, // addr3 (BSSID)
        0, 0, // Sequence Control
        0, 0, // capability info
        0, 0, // status: success
        1, 0xc0, // AID
    ];
    client.on_mac_frame(&assoc_resp[..], false);
    assert_eq!(client.state, States::Associated);
    let disassoc = vec![
        0b1010_00_00, 0, // FC: disassociation
        0, 0, // Duration
        7, 7, 7, 7, 7, 7, // addr1
        6, 6, 6, 6, 6, 6, // addr2
        6, 6, 6, 6, 6, 6, // addr3 (BSSID)
        0, 0, // Sequence Control
        8, 0, // reason code
    ];
    client.on_mac_frame(&disassoc[..], false);
    assert_eq!(client.state, States::Deauthenticated);
    assert_eq!(
        client.device.sme_queue.last().expect("an indication"),
        &SmeMessage::DeauthenticateInd { peer_sta_address: [6; 6], reason_code: 8 }
    );
}

#[test]
fn oversized_non_eapol_msdu_is_dropped() {
    // a payload too large for the Ethernet scratch buffer is dropped, and
    // the MSDUs around it are unaffected
    let big = vec![0u8; 2100];
    let data_frame = make_data_frame_single_llc([9, 10], &big[..]);
    let mut client = make_client_station(Device::new());
    client.handle_data_frame(&data_frame[..], false, true);
    assert!(client.device.eth_queue.is_empty());
}

#[test]
fn truncated_data_frame_has_no_effect() {
    let data_frame = make_data_frame_single_llc([9, 10], &[11, 11, 11]);
    let mut client = make_client_station(Device::new());
    client.handle_data_frame(&data_frame[..20], false, true);
    assert!(client.device.eth_queue.is_empty());
    assert!(client.device.wlan_queue.is_empty());
    assert!(client.device.sme_queue.is_empty());
}
