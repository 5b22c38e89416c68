use evdi::text::{parse_decimal, push_decimal};

#[test]
fn decimals_are_parsed() {
    assert_eq!(parse_decimal("0", 9), Some(0));
    assert_eq!(parse_decimal("0010", 10), Some(10));
    assert_eq!(parse_decimal("11", 10), None);
    assert_eq!(parse_decimal("4294967295", u32::MAX), Some(u32::MAX));
    assert_eq!(parse_decimal("4294967296", u32::MAX), None);
    assert_eq!(parse_decimal("99999999999999999999", u32::MAX), None);
}

#[test]
fn decimals_round_trip() {
    for n in [0usize, 1, 9, 10, 255, 1000, 1920, 4294967295] {
        let mut text = vec![];
        push_decimal(&mut text, n);
        let text = String::from_utf8(text).unwrap();
        assert_eq!(text, n.to_string());
        assert_eq!(parse_decimal(&text, u32::MAX), Some(n as u32));
    }
}
