use frame_parse::decimal::parse_decimal;

#[test]
fn digits_only() {
    assert_eq!(parse_decimal(b"0"), Some(0));
    assert_eq!(parse_decimal(b"7"), Some(7));
    assert_eq!(parse_decimal(b"12345"), Some(12345));
    assert_eq!(parse_decimal(b"000"), Some(0));
    assert_eq!(parse_decimal(b"0000000000000000000000000000012"), Some(12));
}

#[test]
fn nothing_is_no_number() {
    assert_eq!(parse_decimal(b""), None);
}

#[test]
fn no_partial_parse() {
    assert_eq!(parse_decimal(b"12a45"), None);
    assert_eq!(parse_decimal(b"12 "), None);
    assert_eq!(parse_decimal(b"a12"), None);
    assert_eq!(parse_decimal(b"1\x002"), None);
    assert_eq!(parse_decimal(b"/"), None);
    assert_eq!(parse_decimal(b":"), None);
}

#[test]
fn no_sign() {
    assert_eq!(parse_decimal(b"+1"), None);
    assert_eq!(parse_decimal(b"-1"), None);
    assert_eq!(parse_decimal(b"-0"), None);
    assert_eq!(parse_decimal(b"+"), None);
    assert_eq!(parse_decimal(b"-"), None);
}

#[test]
fn largest_and_beyond() {
    assert_eq!(parse_decimal(b"18446744073709551615"), Some(u64::MAX));
    assert_eq!(parse_decimal(b"18446744073709551616"), None);
    assert_eq!(parse_decimal(b"18446744073709551620"), None);
    assert_eq!(parse_decimal(b"184467440737095516150"), None);
    assert_eq!(parse_decimal(b"9999999999999999999"), Some(9999999999999999999));
    assert_eq!(parse_decimal(b"99999999999999999999"), None);
    assert_eq!(parse_decimal(b"00018446744073709551615"), Some(u64::MAX));
}
