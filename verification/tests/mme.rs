use powerline::header_length_of;
use powerline::set_header;
use powerline::MMType;
use powerline::MMTypeCode;
use powerline::MessageReader;
use powerline::UnknownMessage;
use powerline::MMV;
use powerline::OUI;

#[test]
fn mmtype_le_round_trip_all_values() {
    for v in 0..=0xffffu16 {
        let t = MMType(v);
        assert_eq!(MMType::from_le_bytes(t.to_le_bytes()), t);
    }
}

#[test]
fn mmtype_split_and_constructors() {
    for v in [0x0014u16, 0x6044, 0xa05c, 0x1234, 0xffff] {
        let t = MMType(v);
        let (base, code) = t.split();
        let bits = match code {
            MMTypeCode::REQ => 0,
            MMTypeCode::CNF => 1,
            MMTypeCode::IND => 2,
            MMTypeCode::RSP => 3,
        };
        assert_eq!(base.value() | bits, v);
        assert_eq!(t.req().value(), base.value());
        assert_eq!(t.cnf().value(), base.value() + 1);
        assert_eq!(t.ind().value(), base.value() + 2);
        assert_eq!(t.rsp().value(), base.value() + 3);
        assert_eq!(t.req().base(), base);
        assert_eq!(t.rsp().base(), base);
    }
}

#[test]
fn mmtype_names() {
    assert_eq!(MMType::cc_discover_list().value(), 0x0014);
    assert_eq!(MMType(0x0014).name(), Some("CC_DISCOVER_LIST"));
    assert_eq!(MMType(0x6044).name(), Some("CM_MME_ERROR"));
    assert_eq!(MMType(0x6034).name(), Some("CM_STA_CAP"));
    assert_eq!(MMType(0x2000).name(), Some("CP_PROXY_APPOINT"));
    assert_eq!(MMType(0x4000).name(), Some("NN_INL"));
    assert_eq!(MMType(0xa05c).name(), None);
    assert_eq!(MMType(0xa05c).family_name(), "Vendor");
    assert_eq!(MMType(0x0100).family_name(), "STA<>CCo");
    assert_eq!(MMType(0x8000).family_name(), "Manufacturer");
    assert_eq!(MMType(0xc000).family_name(), "Unknown");
    let named: usize = (0..=0xffffu16)
        .step_by(4)
        .filter(|v| MMType(*v).name().is_some())
        .count();
    assert_eq!(named, 76);
}

#[test]
fn mmtype_describe() {
    assert_eq!(MMType(0x0014).describe(), "CC_DISCOVER_LIST.REQ");
    assert_eq!(MMType(0x0015).describe(), "CC_DISCOVER_LIST.CNF");
    assert_eq!(MMType(0x6046).describe(), "CM_MME_ERROR.IND");
    assert_eq!(MMType(0xa05d).describe(), "Vendora05d.CNF");
    assert_eq!(MMType(0x1234).describe(), "STA<>CCo1234.REQ");
}

#[test]
fn mmtype_vendor_detection() {
    assert!(MMType(0xa05c).is_vendor());
    assert!(MMType(0xa058).is_vendor());
    assert!(!MMType(0x0014).is_vendor());
    assert!(!MMType(0x6044).is_vendor());
    assert!(!MMType(0xc000).is_vendor());
}

#[test]
fn mmv_names() {
    assert_eq!(MMV::homeplug_av_1_0().name(), Some("HPAV1.0"));
    assert_eq!(MMV::homeplug_av_1_1().name(), Some("HPAV1.1"));
    assert_eq!(MMV::homeplug_av_2_0().name(), Some("HPAV2.0"));
    assert_eq!(MMV(0x09).name(), None);
}

#[test]
fn header_lengths_match_set_header() {
    let mmvs = [MMV(0x00), MMV(0x01), MMV(0x02), MMV(0x07), MMV(0xff)];
    let types = [MMType(0x0014), MMType(0x6034), MMType(0xa05c), MMType(0xffff)];
    let oui = OUI([0xaa, 0xbb, 0xcc]);
    for mmv in mmvs {
        for t in types {
            let mut buffer = vec![0x55u8; 16];
            let written = set_header(&mut buffer, mmv, t, oui);
            assert_eq!(written, header_length_of(mmv, t));
            assert_eq!(buffer.len(), 16);
        }
    }
}

#[test]
fn header_layout() {
    let mut buffer = vec![0xeeu8; 16];
    let n = set_header(&mut buffer, MMV(0x01), MMType(0x6034), OUI([0, 0, 0]));
    assert_eq!(n, 5);
    assert_eq!(&buffer[..6], &[0x01, 0x34, 0x60, 0x00, 0x00, 0xee]);

    let mut buffer = vec![0xeeu8; 16];
    let n = set_header(&mut buffer, MMV(0x00), MMType(0x6034), OUI([0, 0, 0]));
    assert_eq!(n, 3);
    assert_eq!(&buffer[..4], &[0x00, 0x34, 0x60, 0xee]);

    let mut buffer = vec![0xeeu8; 16];
    let n = set_header(&mut buffer, MMV(0x02), MMType(0xa05c), OUI([0x00, 0x1f, 0x84]));
    assert_eq!(n, 8);
    assert_eq!(&buffer[..9], &[0x02, 0x5c, 0xa0, 0x00, 0x00, 0x00, 0x1f, 0x84, 0xee]);

    let mut buffer = vec![0xeeu8; 16];
    let n = set_header(&mut buffer, MMV(0x09), MMType(0x6034), OUI([0, 0, 0]));
    assert_eq!(n, 0);
    assert_eq!(&buffer[..2], &[0xee, 0xee]);
}

#[test]
fn reader_accessors() {
    let frame = [0x02u8, 0x5c, 0xa0, 0x07, 0x08, 0x00, 0x1f, 0x84, 0x77, 0x78];
    let msg = UnknownMessage(&frame);
    assert_eq!(msg.mmv(), MMV(0x02));
    assert_eq!(msg.mmtype(), MMType(0xa05c));
    assert_eq!(msg.fmi(), 0x07);
    assert_eq!(msg.fmsn(), 0x08);
    assert_eq!(msg.oui(), OUI([0x00, 0x1f, 0x84]));
    assert_eq!(msg.payload(), &[0x77, 0x78]);

    let hpav10 = [0x00u8, 0x14, 0x00, 0x55];
    let msg = UnknownMessage(&hpav10);
    assert_eq!(msg.fmi(), 0);
    assert_eq!(msg.fmsn(), 0);
    assert_eq!(msg.oui(), OUI([0x00, 0x00, 0x00]));
    assert_eq!(msg.payload(), &[0x55]);
}

#[test]
fn reader_clamps_truncated_frames() {
    let empty: [u8; 0] = [];
    let msg = UnknownMessage(&empty);
    assert_eq!(msg.mmv(), MMV(0x00));
    assert_eq!(msg.mmtype(), MMType(0x0000));
    assert_eq!(msg.fmi(), 0);
    assert_eq!(msg.fmsn(), 0);
    assert_eq!(msg.oui(), OUI([0x00, 0x00, 0x00]));
    assert_eq!(msg.payload(), &[] as &[u8]);

    let unknown_version = [0x09u8, 0x14, 0x00, 0x01, 0x02];
    let msg = UnknownMessage(&unknown_version);
    assert_eq!(msg.payload(), &[] as &[u8]);

    let short = [0x01u8, 0x14];
    let msg = UnknownMessage(&short);
    assert_eq!(msg.mmtype(), MMType(0x0000));
    assert_eq!(msg.payload(), &[] as &[u8]);
}
