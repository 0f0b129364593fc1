use vstd::prelude::*;
use vstd::string::StringExecFns;

verus! {

/// The closed set of failure categories that a request can end in,
/// covering both URL validation failures and request-time failures.
#[derive(Debug, PartialEq, Eq)]
pub enum ErrorKind {
    InvalidUrlBase,
    InvalidIpv6,
    InvalidIpv4,
    InvalidPort,
    UnknownUrlError,
    ConnectionFailed,
    TransportBuilderError,
    HttpStatusError(u16),
    OtherTransportError(String),
}

/// The character for a single decimal digit.
pub open spec fn spec_digit_char(d: nat) -> char {
    if d == 0 {
        '0'
    } else if d == 1 {
        '1'
    } else if d == 2 {
        '2'
    } else if d == 3 {
        '3'
    } else if d == 4 {
        '4'
    } else if d == 5 {
        '5'
    } else if d == 6 {
        '6'
    } else if d == 7 {
        '7'
    } else if d == 8 {
        '8'
    } else {
        '9'
    }
}

/// The usual decimal rendering of a natural number, most significant
/// digit first, with no leading zeros (except for zero itself).
pub open spec fn spec_decimal_digits(n: nat) -> Seq<char>
    decreases n,
{
    if n < 10 {
        seq![spec_digit_char(n)]
    } else {
        spec_decimal_digits(n / 10) + seq![spec_digit_char(n % 10)]
    }
}

/// The fixed message template for a non-2xx response status.
pub open spec fn spec_status_message(code: nat) -> Seq<char> {
    "Request failed with status code: "@ + spec_decimal_digits(code) + "."@
}

/// The user-facing message carried by each error kind.
pub open spec fn spec_kind_message(k: ErrorKind) -> Seq<char> {
    match k {
        ErrorKind::InvalidUrlBase => "The URL does not have a valid base protocol"@,
        ErrorKind::InvalidIpv6 => "The URL contains an invalid IPv6 address"@,
        ErrorKind::InvalidIpv4 => "The URL contains an invalid IPv4 address"@,
        ErrorKind::InvalidPort => "The URL contains an invalid port number"@,
        ErrorKind::UnknownUrlError => "URL Err"@,
        ErrorKind::ConnectionFailed => "Unable to connect to the server. Perhaps the network is offline or the server hostname cannot be resolved"@,
        ErrorKind::TransportBuilderError => "The URL does not have a valid base protocol"@,
        ErrorKind::HttpStatusError(code) => spec_status_message(code as nat),
        ErrorKind::OtherTransportError(detail) => detail@,
    }
}

fn digit_str(d: u16) -> (s: &'static str)
    requires
        d < 10,
    ensures
        s@ == seq![spec_digit_char(d as nat)],
{
    if d == 0 {
        proof {
            reveal_strlit("0");
            assert("0"@ =~= seq![spec_digit_char(0)]);
        }
        "0"
    } else if d == 1 {
        proof {
            reveal_strlit("1");
            assert("1"@ =~= seq![spec_digit_char(1)]);
        }
        "1"
    } else if d == 2 {
        proof {
            reveal_strlit("2");
            assert("2"@ =~= seq![spec_digit_char(2)]);
        }
        "2"
    } else if d == 3 {
        proof {
            reveal_strlit("3");
            assert("3"@ =~= seq![spec_digit_char(3)]);
        }
        "3"
    } else if d == 4 {
        proof {
            reveal_strlit("4");
            assert("4"@ =~= seq![spec_digit_char(4)]);
        }
        "4"
    } else if d == 5 {
        proof {
            reveal_strlit("5");
            assert("5"@ =~= seq![spec_digit_char(5)]);
        }
        "5"
    } else if d == 6 {
        proof {
            reveal_strlit("6");
            assert("6"@ =~= seq![spec_digit_char(6)]);
        }
        "6"
    } else if d == 7 {
        proof {
            reveal_strlit("7");
            assert("7"@ =~= seq![spec_digit_char(7)]);
        }
        "7"
    } else if d == 8 {
        proof {
            reveal_strlit("8");
            assert("8"@ =~= seq![spec_digit_char(8)]);
        }
        "8"
    } else {
        proof {
            reveal_strlit("9");
            assert("9"@ =~= seq![spec_digit_char(9)]);
        }
        "9"
    }
}

fn append_decimal(out: &mut String, n: u16)
    ensures
        final(out)@ == old(out)@ + spec_decimal_digits(n as nat),
    decreases n,
{
    if n >= 10 {
        append_decimal(out, n / 10);
    }
    out.append(digit_str(n % 10));
    proof {
        if n < 10 {
            assert(n % 10 == n);
        }
        assert(out@ =~= old(out)@ + spec_decimal_digits(n as nat));
    }
}

/// The message reported for a response whose status is outside 2xx.
pub fn status_message(code: u16) -> (m: String)
    ensures
        m@ == spec_status_message(code as nat),
{
    let mut m: String = "Request failed with status code: ".to_owned();
    append_decimal(&mut m, code);
    m.append(".");
    m
}

/// The fixed, user-facing message text for an error kind; an unclassified
/// transport failure reports the underlying detail verbatim.
pub fn kind_message(k: &ErrorKind) -> (m: String)
    ensures
        m@ == spec_kind_message(*k),
{
    match k {
        ErrorKind::InvalidUrlBase => "The URL does not have a valid base protocol".to_owned(),
        ErrorKind::InvalidIpv6 => "The URL contains an invalid IPv6 address".to_owned(),
        ErrorKind::InvalidIpv4 => "The URL contains an invalid IPv4 address".to_owned(),
        ErrorKind::InvalidPort => "The URL contains an invalid port number".to_owned(),
        ErrorKind::UnknownUrlError => "URL Err".to_owned(),
        ErrorKind::ConnectionFailed => "Unable to connect to the server. Perhaps the network is offline or the server hostname cannot be resolved".to_owned(),
        ErrorKind::TransportBuilderError => "The URL does not have a valid base protocol".to_owned(),
        ErrorKind::HttpStatusError(code) => status_message(*code),
        ErrorKind::OtherTransportError(detail) => detail.clone(),
    }
}

} // verus!
