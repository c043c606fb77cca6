use smtp_relay::config::parse_u32;

#[test]
fn parses_decimal_ports() {
    assert_eq!(parse_u32("465"), Some(465));
    assert_eq!(parse_u32("+25"), Some(25));
    assert_eq!(parse_u32("0"), Some(0));
    assert_eq!(parse_u32("007"), Some(7));
    assert_eq!(parse_u32("4294967295"), Some(4294967295));
}

#[test]
fn rejects_malformed_ports() {
    assert_eq!(parse_u32(""), None);
    assert_eq!(parse_u32("+"), None);
    assert_eq!(parse_u32("-1"), None);
    assert_eq!(parse_u32(" 25"), None);
    assert_eq!(parse_u32("25a"), None);
    assert_eq!(parse_u32("4294967296"), None);
    assert_eq!(parse_u32("99999999999999999999x"), None);
}

#[test]
fn agrees_with_std_parse() {
    for s in ["1", "+1", "++1", "65535", "4294967295", "4294967296", "1 ", "١"] {
        assert_eq!(parse_u32(s), s.parse::<u32>().ok(), "{}", s);
    }
}
