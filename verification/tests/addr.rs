use powerline::EtherAddr;
use powerline::OUI;

#[test]
fn properties() {
    assert_eq!(EtherAddr::broadcast().is_unicast(), false);
    assert_eq!(EtherAddr::broadcast().is_multicast(), true);
    assert_eq!(EtherAddr::broadcast().is_broadcast(), true);
    assert_eq!(EtherAddr::broadcast().oui(), OUI([0xff, 0xff, 0xff]));

    assert_eq!(EtherAddr::qualcomm_localcast().is_unicast(), true);
    assert_eq!(EtherAddr::qualcomm_localcast().is_multicast(), false);
    assert_eq!(EtherAddr::qualcomm_localcast().is_broadcast(), false);
    assert_eq!(EtherAddr::qualcomm_localcast().oui(), OUI::qualcomm());

    assert_eq!(EtherAddr::ieee1905_multicast().is_unicast(), false);
    assert_eq!(EtherAddr::ieee1905_multicast().is_multicast(), true);
    assert_eq!(EtherAddr::ieee1905_multicast().is_broadcast(), false);
    assert_eq!(EtherAddr::ieee1905_multicast().oui(), OUI([0x01, 0x80, 0xc2]));
}

#[test]
fn from_str() {
    for test in &[
        "01:23:45:67:89:ab",
        "01-23-45-67-89-ab",
        "01-23-45-67-89-AB",
        "01-23-45-67-89-Ab",
        "\t01-23-45-67-89-ab  ",
        "  01 : 23 : 45 : 67 : 89 : ab  ",
    ] {
        let model = Ok(EtherAddr([0x01, 0x23, 0x45, 0x67, 0x89, 0xab]));
        assert_eq!(model, EtherAddr::from_str(test), "\"{}\"", test);
    }

    for test in &[
        "",
        "0",
        "01",
        "01-",
        "01-2",
        "01-23",
        "01-23-",
        "01-23-4",
        "01-23-45",
        "01-23-45-",
        "01-23-45-6",
        "01-23-45-67",
        "01-23-45-67-",
        "01-23-45-67-8",
        "01-23-45-67-89",
        "01-23-45-67-89-",
        "01-23-45-67-89-a",
        "xx-xx-xx-xx-xx-xx",
        "01-23-45-67-89-xx",
        "01-23-45-67-89-ab-",
        "01-23-45-67-89-ab-cd",
        "-01-23-45-67-89-ab",
        "01--23-45-67-89-ab",
        "0 1-23-45-67-89-ab",
        "1-2-3-4-5-6",
        "-----",
        ":::::",
    ] {
        assert_eq!(Err(()), EtherAddr::from_str(test), "\"{}\"", test);
    }
}

#[test]
fn format_round_trip() {
    let addr = EtherAddr([0x01, 0x23, 0x45, 0x67, 0x89, 0xab]);
    let text = addr.to_hex_string();
    assert_eq!(text, "01:23:45:67:89:ab");
    assert_eq!(EtherAddr::from_str(&text), Ok(addr));

    let null = EtherAddr::null();
    assert_eq!(null.to_hex_string(), "00:00:00:00:00:00");
    assert_eq!(EtherAddr::from_str(&null.to_hex_string()), Ok(null));

    let bcast = EtherAddr::broadcast();
    assert_eq!(bcast.to_hex_string(), "ff:ff:ff:ff:ff:ff");
    assert_eq!(EtherAddr::from_str(&bcast.to_hex_string()), Ok(bcast));
}

#[test]
fn padded_and_from_slice() {
    let addr = EtherAddr::from_slice(&[1, 2, 3, 4, 5, 6]);
    assert_eq!(addr, EtherAddr([1, 2, 3, 4, 5, 6]));
    assert_eq!(addr.padded(), [1, 2, 3, 4, 5, 6, 0, 0]);
}
