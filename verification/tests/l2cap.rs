use podctl::l2cap::parse_mac;

#[test]
fn mac_reverses() {
    assert_eq!(
        parse_mac("AA:BB:CC:DD:EE:FF"),
        Some([0xFF, 0xEE, 0xDD, 0xCC, 0xBB, 0xAA])
    );
    assert_eq!(
        parse_mac("aa:bb:cc:dd:ee:ff"),
        Some([0xFF, 0xEE, 0xDD, 0xCC, 0xBB, 0xAA])
    );
    assert_eq!(parse_mac("not-a-mac"), None);
    assert_eq!(parse_mac("AA:BB:CC:DD:EE"), None);
}
