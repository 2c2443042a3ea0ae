use powerline::generate_nid;
use powerline::generate_nmk;
use powerline::nmk_homeplug_av;
use powerline::nmk_homeplug_av0123;
use powerline::SecurityLevel;

#[test]
fn standard_keys() {
    assert_eq!(generate_nmk("HomePlugAV"), nmk_homeplug_av());
    assert_eq!(generate_nmk("HomePlugAV0123"), nmk_homeplug_av0123());
}

#[test]
fn other_keys() {
    assert_eq!(
        generate_nmk("The quick brown fox jumped over the lazy dog."),
        [0x56, 0xf3, 0xc7, 0xf5, 0x39, 0xd4, 0xf8, 0xf5, 0xee, 0xc0, 0x0e, 0x63, 0xf1, 0x1a, 0x8d, 0xec],
    );
    assert_eq!(
        generate_nmk("-HomePlugAV"),
        [0x80, 0xb7, 0x4b, 0x14, 0xe9, 0x2a, 0x73, 0x9a, 0xd4, 0x1a, 0xcd, 0xc3, 0x77, 0x45, 0x1d, 0x1b],
    );
    assert_eq!(
        generate_nmk("-HomePlugAV123"),
        [0x1a, 0x46, 0xbd, 0xe6, 0xf7, 0x52, 0x09, 0x29, 0x2f, 0xdf, 0xc4, 0xcc, 0xe4, 0xd1, 0x9b, 0x4e],
    );
    assert_eq!(
        generate_nmk("01234567890123456789"),
        [0xf2, 0xb0, 0xc7, 0xf6, 0xc3, 0x55, 0x98, 0x1e, 0xbd, 0xd4, 0x84, 0xff, 0x49, 0x95, 0x74, 0x20],
    );
    assert_eq!(
        generate_nmk("abcdefghijklmnopqrstuvwxyz"),
        [0x54, 0xcb, 0x8a, 0xb1, 0x23, 0x58, 0x96, 0xe4, 0x5e, 0x6b, 0x64, 0x3c, 0x7b, 0xf1, 0x1a, 0xdb],
    );
    assert_eq!(
        generate_nmk(r#"~!@#$%^&*()_-`{}[]":;'\|<>./?"#),
        [0x16, 0x71, 0xd6, 0x1f, 0x30, 0x5e, 0x81, 0xba, 0xf0, 0x00, 0xd5, 0x8a, 0xf0, 0x98, 0x88, 0xd5],
    );
}

#[test]
fn standard_nids() {
    assert_eq!(
        generate_nid(nmk_homeplug_av(), SecurityLevel::simple()),
        [0xb0, 0xf2, 0xe6, 0x95, 0x66, 0x6b, 0x03]
    );
    assert_eq!(
        generate_nid(nmk_homeplug_av0123(), SecurityLevel::secure()),
        [0x02, 0x6b, 0xcb, 0xa5, 0x35, 0x4e, 0x18]
    );
}
