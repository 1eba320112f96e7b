use ddns::errors::DdnsError;
use ddns::ip::{parse_ipv4, Ipv4};

#[test]
fn parses_a_plain_dotted_quad() {
    assert_eq!(parse_ipv4("1.2.3.4"), Ok(Ipv4 { a: 1, b: 2, c: 3, d: 4 }));
}

#[test]
fn parses_the_extremes() {
    assert_eq!(parse_ipv4("0.0.0.0"), Ok(Ipv4 { a: 0, b: 0, c: 0, d: 0 }));
    assert_eq!(parse_ipv4("255.255.255.255"), Ok(Ipv4 { a: 255, b: 255, c: 255, d: 255 }));
}

#[test]
fn rejects_prose_as_format_error() {
    assert_eq!(parse_ipv4("not-an-ip"), Err(DdnsError::FormatError));
}

#[test]
fn rejects_an_octet_over_255() {
    assert_eq!(parse_ipv4("256.1.1.1"), Err(DdnsError::FormatError));
    assert_eq!(parse_ipv4("1.1.1.999"), Err(DdnsError::FormatError));
}

#[test]
fn rejects_leading_zeros() {
    assert_eq!(parse_ipv4("01.2.3.4"), Err(DdnsError::FormatError));
    assert_eq!(parse_ipv4("1.2.3.00"), Err(DdnsError::FormatError));
}

#[test]
fn rejects_wrong_label_counts() {
    assert_eq!(parse_ipv4("1.2.3"), Err(DdnsError::FormatError));
    assert_eq!(parse_ipv4("1.2.3.4.5"), Err(DdnsError::FormatError));
    assert_eq!(parse_ipv4(""), Err(DdnsError::FormatError));
}

#[test]
fn rejects_empty_and_overlong_octets() {
    assert_eq!(parse_ipv4("1..3.4"), Err(DdnsError::FormatError));
    assert_eq!(parse_ipv4("1.2.3.1234"), Err(DdnsError::FormatError));
}

#[test]
fn rejects_non_digit_octets() {
    assert_eq!(parse_ipv4("1.2.3.4a"), Err(DdnsError::FormatError));
    assert_eq!(parse_ipv4("1.2.-3.4"), Err(DdnsError::FormatError));
    assert_eq!(parse_ipv4(" 1.2.3.4"), Err(DdnsError::FormatError));
}
