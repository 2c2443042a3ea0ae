use powerline::MessageTX;
use powerline::signal_level_str;
use powerline::BridgeInfo;
use powerline::DiscoverList;
use powerline::DiscoverListRequest;
use powerline::ErrorType;
use powerline::EtherAddr;
use powerline::EtherType;
use powerline::GetProperty;
use powerline::GetPropertyRequest;
use powerline::HFIDRequest;
use powerline::MMEError;
use powerline::MMType;
use powerline::MMV;
use powerline::NetworkInfo;
use powerline::Property;
use powerline::SetPropertyRequest;
use powerline::StationCapabilities;
use powerline::StationRole;
use powerline::Version;
use powerline::HFID;
use powerline::OUI;

fn frame(header: &[u8], payload: &[u8]) -> Vec<u8> {
    let mut f = header.to_vec();
    f.extend_from_slice(payload);
    f
}

#[test]
fn discover_request_encoding() {
    let mut buffer = vec![0xaau8; 1500];
    let n = DiscoverListRequest.encode(&mut buffer);
    assert_eq!(n, 5);
    assert_eq!(buffer[0], 0x01);
    assert_eq!(&buffer[1..3], &[0x14, 0x00]);
    assert_eq!(&buffer[3..5], &[0x00, 0x00]);
}

#[test]
fn discover_list_two_stations() {
    let station_a = [0x02u8, 0x03, 0x04, 0x05, 0x06, 0x07, 9, 1, 5, 0, 0x01, 200];
    let station_b = [0x12u8, 0x13, 0x14, 0x15, 0x16, 0x17, 10, 0, 5, 0, 0x0f, 100];
    let mut payload = vec![0x02u8];
    payload.extend_from_slice(&station_a);
    payload.extend_from_slice(&station_b);
    let f = frame(&[0x01, 0x15, 0x00, 0x00, 0x00], &payload);
    let list = DiscoverList(&f);
    let stations = list.stations();
    assert_eq!(stations.len(), 2);
    assert_eq!(stations[0].addr(), EtherAddr([0x02, 0x03, 0x04, 0x05, 0x06, 0x07]));
    assert_eq!(stations[1].addr(), EtherAddr([0x12, 0x13, 0x14, 0x15, 0x16, 0x17]));
    assert_eq!(stations[0].tei(), 9);
    assert_eq!(stations[0].same_network(), 1);
    assert_eq!(stations[0].snid(), 5);
    assert_eq!(stations[0].signal_level(), 0x01);
    assert_eq!(stations[0].ble(), 200);
    assert_eq!(signal_level_str(stations[0].signal_level()), ">-10dB");
    assert_eq!(signal_level_str(stations[1].signal_level()), "<-75dB");
    assert_eq!(signal_level_str(0x00), "Unknown");
    assert_eq!(signal_level_str(0x10), "????");
    assert_eq!(list.networks().len(), 0);
}

#[test]
fn discover_list_networks_at_stride() {
    let mut payload = vec![0u8; 41];
    payload[0] = 0x02;
    payload.push(0x01);
    let net = [0xaau8, 0xbb, 0xcc, 0xdd, 0xee, 0xff, 0x11, 7, 1, 6, 1, 3, 0];
    payload.extend_from_slice(&net);
    let f = frame(&[0x01, 0x15, 0x00, 0x00, 0x00], &payload);
    let list = DiscoverList(&f);
    assert_eq!(list.stations().len(), 2);
    let networks = list.networks();
    assert_eq!(networks.len(), 1);
    assert_eq!(networks[0].nid(), &[0xaa, 0xbb, 0xcc, 0xdd, 0xee, 0xff, 0x11]);
    assert_eq!(networks[0].snid(), 7);
    assert_eq!(networks[0].hybrid(), 1);
    assert_eq!(networks[0].slots(), 6);
    assert_eq!(networks[0].coordinating(), 1);
    assert_eq!(networks[0].offset(), 3);
}

#[test]
fn discover_list_truncation() {
    let f = frame(&[0x01, 0x15, 0x00, 0x00, 0x00], &[]);
    let list = DiscoverList(&f);
    assert_eq!(list.stations().len(), 0);
    assert_eq!(list.networks().len(), 0);

    let mut payload = vec![0x05u8];
    payload.extend_from_slice(&[0u8; 12]);
    let f = frame(&[0x01, 0x15, 0x00, 0x00, 0x00], &payload);
    let list = DiscoverList(&f);
    assert_eq!(list.stations().len(), 1);

    let empty: [u8; 0] = [];
    let list = DiscoverList(&empty);
    assert_eq!(list.stations().len(), 0);
    assert_eq!(list.networks().len(), 0);
}

#[test]
fn bridge_info_decoding() {
    let mut payload = vec![0x01u8, 42, 0x02];
    payload.extend_from_slice(&[1, 2, 3, 4, 5, 6]);
    payload.extend_from_slice(&[7, 8, 9, 10, 11, 12]);
    let f = frame(&[0x01, 0x21, 0x60, 0x00, 0x00], &payload);
    let info = BridgeInfo(&f);
    assert!(info.is_bridge());
    assert_eq!(info.tei(), 42);
    let dests = info.destinations();
    assert_eq!(dests.len(), 2);
    assert_eq!(dests[0], EtherAddr([1, 2, 3, 4, 5, 6]));
    assert_eq!(dests[1], EtherAddr([7, 8, 9, 10, 11, 12]));

    let f = frame(&[0x01, 0x21, 0x60, 0x00, 0x00], &[0x00, 42, 0x02, 1, 2, 3, 4, 5, 6]);
    let info = BridgeInfo(&f);
    assert!(!info.is_bridge());
    assert_eq!(info.destinations().len(), 0);

    let empty: [u8; 0] = [];
    let info = BridgeInfo(&empty);
    assert!(!info.is_bridge());
    assert_eq!(info.tei(), 0);
    assert_eq!(info.destinations().len(), 0);
}

#[test]
fn network_info_decoding() {
    let mut payload = vec![0x01u8];
    let mut entry = vec![0x10u8, 0x11, 0x12, 0x13, 0x14, 0x15, 0x16];
    entry.push(9);
    entry.push(3);
    entry.push(0x02);
    entry.extend_from_slice(&[1, 2, 3, 4, 5, 6]);
    entry.push(1);
    entry.push(4);
    payload.extend_from_slice(&entry);
    let f = frame(&[0x01, 0x39, 0x60, 0x00, 0x00], &payload);
    let info = NetworkInfo(&f);
    let entries = info.networks();
    assert_eq!(entries.len(), 1);
    assert_eq!(entries[0].nid(), &[0x10, 0x11, 0x12, 0x13, 0x14, 0x15, 0x16]);
    assert_eq!(entries[0].snid(), 9);
    assert_eq!(entries[0].tei(), 3);
    assert_eq!(entries[0].station_role(), StationRole(0x02));
    assert_eq!(entries[0].station_role().name(), Some("CCo"));
    assert_eq!(entries[0].cco_addr(), EtherAddr([1, 2, 3, 4, 5, 6]));
    assert_eq!(entries[0].access(), 1);
    assert_eq!(entries[0].num_cord_nws(), 4);

    let empty: [u8; 0] = [];
    assert_eq!(NetworkInfo(&empty).networks().len(), 0);
}

#[test]
fn station_capabilities_decoding() {
    let mut payload = vec![0x01u8];
    payload.extend_from_slice(&[1, 2, 3, 4, 5, 6]);
    payload.extend_from_slice(&[0x00, 0xb0, 0x52]);
    payload.extend_from_slice(&[1, 0, 2, 0, 0, 0, 0, 0]);
    payload.extend_from_slice(&[0x34, 0x12]);
    payload.extend_from_slice(&[0, 0, 7, 2, 1, 1]);
    let f = frame(&[0x01, 0x35, 0x60, 0x00, 0x00], &payload);
    let caps = StationCapabilities(&f);
    assert_eq!(caps.version(), Version(0x01));
    assert_eq!(caps.version().name(), Some("HPAV2.0"));
    assert_eq!(caps.addr(), EtherAddr([1, 2, 3, 4, 5, 6]));
    assert_eq!(caps.oui(), OUI::qualcomm());
    assert_eq!(caps.cco_level(), 2);
    assert_eq!(caps.max_frame_length_avg(), 0x1234);
    assert_eq!(caps.region(), 7);
    assert_eq!(caps.burst_mode(), 2);
    assert!(caps.auto_connect());
    assert!(!caps.smoothing());
    assert!(!caps.proxy_capable());
    assert!(!caps.backup_cco_capable());
    assert!(!caps.soft_handover());
    assert!(!caps.two_sym_frame_control());
    assert!(!caps.homeplug_1_1());
    assert!(!caps.homeplug_1_0_1());

    let empty: [u8; 0] = [];
    let caps = StationCapabilities(&empty);
    assert_eq!(caps.version(), Version(0x00));
    assert_eq!(caps.addr(), EtherAddr::null());
    assert_eq!(caps.oui(), OUI([0, 0, 0]));
    assert_eq!(caps.max_frame_length_avg(), 0);
    assert!(!caps.auto_connect());
}

#[test]
fn hfid_requests_and_reply() {
    let mut buffer = vec![0u8; 1500];
    let n = HFIDRequest::GetMfg.encode(&mut buffer);
    assert_eq!(n, 6);
    assert_eq!(&buffer[..6], &[0x01, 0x40, 0x60, 0x00, 0x00, 0x00]);

    let n = HFIDRequest::GetUsr.encode(&mut buffer);
    assert_eq!(n, 6);
    assert_eq!(buffer[5], 0x01);

    let n = HFIDRequest::GetNet { nid: [1, 2, 3, 4, 5, 6] }.encode(&mut buffer);
    assert_eq!(n, 12);
    assert_eq!(&buffer[5..12], &[0x02, 1, 2, 3, 4, 5, 6]);

    let mut name = [0u8; 64];
    name[..4].copy_from_slice(b"lamp");
    let n = HFIDRequest::SetUsr { hfid: name }.encode(&mut buffer);
    assert_eq!(n, 70);
    assert_eq!(buffer[5], 0x03);
    assert_eq!(&buffer[6..10], b"lamp");

    let n = HFIDRequest::SetNet { nid: [9, 9, 9, 9, 9, 9], hfid: name }.encode(&mut buffer);
    assert_eq!(n, 76);
    assert_eq!(buffer[5], 0x04);
    assert_eq!(&buffer[6..12], &[9, 9, 9, 9, 9, 9]);
    assert_eq!(&buffer[12..16], b"lamp");

    let mut payload = vec![0x01u8];
    payload.extend_from_slice(&name);
    let f = frame(&[0x01, 0x41, 0x60, 0x00, 0x00], &payload);
    let reply = HFID(&f);
    assert_eq!(reply.req_type().name(), Some("GET_USR"));
    assert_eq!(reply.hfid_bytes().len(), 64);
    assert_eq!(reply.hfid(), "lamp");

    let empty: [u8; 0] = [];
    let reply = HFID(&empty);
    assert_eq!(reply.hfid_bytes().len(), 0);
    assert_eq!(reply.hfid(), "");

    let mut bad = vec![0x01u8, 0xff, 0xfe];
    bad.resize(65, 0x00);
    let f = frame(&[0x01, 0x41, 0x60, 0x00, 0x00], &bad);
    let reply = HFID(&f);
    assert_eq!(reply.hfid(), "");
}

#[test]
fn mme_error_decoding() {
    let payload = [0x02u8, 0x01, 0x34, 0x60, 0x10, 0x02];
    let f = frame(&[0x01, 0x46, 0x60, 0x00, 0x00], &payload);
    let err = MMEError(&f);
    assert_eq!(err.error(), ErrorType(0x02));
    assert_eq!(err.error().name(), Some("Unsupported Feature"));
    assert_eq!(err.error_mmv(), MMV(0x01));
    assert_eq!(err.error_mmtype(), MMType(0x6034));
    assert_eq!(err.error_offset(), 0x0210);

    let empty: [u8; 0] = [];
    let err = MMEError(&empty);
    assert_eq!(err.error(), ErrorType(0x00));
    assert_eq!(err.error_mmtype(), MMType(0x0000));
    assert_eq!(err.error_offset(), 0);
}

#[test]
fn broadcom_get_property() {
    let mut buffer = vec![0u8; 1500];
    let request = GetPropertyRequest { seq: 0x77, property: Property::hfid_user() };
    let n = request.encode(&mut buffer);
    assert_eq!(n, 10);
    assert_eq!(
        &buffer[..10],
        &[0x02, 0x5c, 0xa0, 0x00, 0x00, 0x00, 0x1f, 0x84, 0x77, 0x25]
    );

    let mut payload = vec![0x77u8, 0x02, 0x03, 0x00];
    payload.extend_from_slice(&[1, 2, 3]);
    payload.extend_from_slice(&[4, 5, 6]);
    let f = frame(&[0x02, 0x5d, 0xa0, 0x00, 0x00, 0x00, 0x1f, 0x84], &payload);
    let reply = GetProperty(&f);
    assert_eq!(reply.seq(), 0x77);
    assert_eq!(reply.count(), 2);
    assert_eq!(reply.record_size(), 3);
    let records = reply.records();
    assert_eq!(records.len(), 2);
    assert_eq!(records[0], &[1, 2, 3]);
    assert_eq!(records[1], &[4, 5, 6]);
    assert_eq!(reply.first(), Some(&[1u8, 2, 3] as &[u8]));

    let f = frame(&[0x02, 0x5d, 0xa0, 0x00, 0x00, 0x00, 0x1f, 0x84], &[0x77, 0x00, 0x03, 0x00]);
    let reply = GetProperty(&f);
    assert_eq!(reply.records().len(), 0);
    assert_eq!(reply.first(), None);

    let f = frame(&[0x02, 0x5d, 0xa0, 0x00, 0x00, 0x00, 0x1f, 0x84], &[0x77, 0x05, 0x00, 0x00]);
    let reply = GetProperty(&f);
    assert_eq!(reply.record_size(), 0);
    assert_eq!(reply.records().len(), 0);
}

#[test]
fn broadcom_set_property() {
    let mut buffer = vec![0u8; 1500];
    let mut value = [0u8; 64];
    value[..3].copy_from_slice(b"abc");
    let request = SetPropertyRequest { seq: 0x80, property: Property::hfid_user(), data: value };
    let n = request.encode(&mut buffer);
    assert_eq!(n, 78);
    assert_eq!(&buffer[..8], &[0x02, 0x58, 0xa0, 0x00, 0x00, 0x00, 0x1f, 0x84]);
    assert_eq!(&buffer[8..14], &[0x80, 0x25, 0x00, 0x01, 0x40, 0x00]);
    assert_eq!(&buffer[14..17], b"abc");
    assert_eq!(buffer[17], 0x00);
}

#[test]
fn ether_type_properties() {
    assert_eq!(EtherType::homeplug_av().name(), Some("HomePlug AV"));
    assert_eq!(EtherType::mediaxtream().name(), Some("Mediaxtream"));
    assert_eq!(EtherType(0x1234).name(), None);
    assert_eq!(EtherType::homeplug_av().as_bytes(), [0x88, 0xe1]);
    assert_eq!(EtherType::from_slice(&[0x88, 0xe1]), EtherType::homeplug_av());
    assert_eq!(EtherType::homeplug_av().as_be_u16(), 0xe188);
}
