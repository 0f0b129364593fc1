use httpcli::errors::{kind_message, ErrorKind};
use httpcli::validator::validate;

#[test]
fn valid_url_accepted() {
    let r = validate("https://example.com/path?q=1");
    match r {
        Ok(u) => assert_eq!(u.as_str(), "https://example.com/path?q=1"),
        Err(_) => panic!("a well-formed absolute URL must validate"),
    }
}

#[test]
fn relative_url_reports_invalid_base() {
    let r = validate("example.com/no/scheme");
    assert_eq!(r.err(), Some(ErrorKind::InvalidUrlBase));
}

#[test]
fn empty_string_reports_invalid_base() {
    let r = validate("");
    assert_eq!(r.err(), Some(ErrorKind::InvalidUrlBase));
}

#[test]
fn bad_ipv6_literal_reported() {
    let r = validate("http://[:::1]/");
    assert_eq!(r.err(), Some(ErrorKind::InvalidIpv6));
}

#[test]
fn bad_ipv4_literal_reported() {
    let r = validate("http://127.0.0.0.1/");
    assert_eq!(r.err(), Some(ErrorKind::InvalidIpv4));
}

#[test]
fn out_of_range_port_reported() {
    let r = validate("http://example.com:99999/");
    assert_eq!(r.err(), Some(ErrorKind::InvalidPort));
}

#[test]
fn other_malformed_url_reports_catch_all() {
    let r = validate("http://");
    assert_eq!(r.err(), Some(ErrorKind::UnknownUrlError));
}

#[test]
fn validate_is_idempotent() {
    let inputs = [
        "https://example.com/",
        "example.com",
        "http://[:::1]/",
        "http://127.0.0.0.1/",
        "http://example.com:99999/",
        "http://",
        "",
    ];
    for raw in inputs {
        let first = validate(raw);
        let second = validate(raw);
        match (first, second) {
            (Ok(a), Ok(b)) => assert_eq!(a.as_str(), b.as_str()),
            (Err(a), Err(b)) => assert_eq!(a, b),
            _ => panic!("two validations of {:?} disagreed", raw),
        }
    }
}

#[test]
fn url_error_messages_are_fixed() {
    assert_eq!(
        kind_message(&ErrorKind::InvalidUrlBase),
        "The URL does not have a valid base protocol"
    );
    assert_eq!(
        kind_message(&ErrorKind::InvalidIpv6),
        "The URL contains an invalid IPv6 address"
    );
    assert_eq!(
        kind_message(&ErrorKind::InvalidIpv4),
        "The URL contains an invalid IPv4 address"
    );
    assert_eq!(
        kind_message(&ErrorKind::InvalidPort),
        "The URL contains an invalid port number"
    );
    assert_eq!(kind_message(&ErrorKind::UnknownUrlError), "URL Err");
}
