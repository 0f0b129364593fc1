use vstd::prelude::*;
use crate::errors::ErrorKind;

verus! {

/// The category of a URL parse failure, as the parser reports it.
#[derive(Clone, Copy, Debug, PartialEq, Eq, Structural)]
pub enum UrlFault {
    RelativeWithoutBase,
    BadIpv6,
    BadIpv4,
    BadPort,
    Other,
}

/// What parsing a given string as a URL yields: `None` when the string is
/// a well-formed absolute URL, otherwise the category of the failure.
pub uninterp spec fn url_parse_outcome(s: Seq<char>) -> Option<UrlFault>;

/// Relies on `url::Url::parse`: a deterministic, pure parser; its error
/// enum names the failure category, and the four variants matched here
/// are the ones this tool distinguishes.
#[verifier::external_body]
fn parse_outcome(raw: &str) -> (r: Option<UrlFault>)
    ensures
        r == url_parse_outcome(raw@),
{
    match url::Url::parse(raw) {
        Ok(_) => None,
        Err(url::ParseError::RelativeUrlWithoutBase) => Some(UrlFault::RelativeWithoutBase),
        Err(url::ParseError::InvalidIpv6Address) => Some(UrlFault::BadIpv6),
        Err(url::ParseError::InvalidIpv4Address) => Some(UrlFault::BadIpv4),
        Err(url::ParseError::InvalidPort) => Some(UrlFault::BadPort),
        Err(_) => Some(UrlFault::Other),
    }
}

/// A URL string that passed validation. Only `validate` constructs one,
/// so a dispatcher holding a `ValidatedUrl` cannot disagree with the
/// validator about it.
pub struct ValidatedUrl {
    text: String,
}

impl View for ValidatedUrl {
    type V = Seq<char>;

    closed spec fn view(&self) -> Seq<char> {
        self.text@
    }
}

impl ValidatedUrl {
    /// The validated URL text, for handing to the transport.
    pub fn as_str(&self) -> (r: &str)
        ensures
            r@ == self@,
    {
        self.text.as_str()
    }
}

/// The error kind reported for each parse-failure category: the four
/// specific categories each keep their own kind, everything else falls
/// back to the catch-all.
pub open spec fn fault_kind(f: UrlFault) -> ErrorKind {
    match f {
        UrlFault::RelativeWithoutBase => ErrorKind::InvalidUrlBase,
        UrlFault::BadIpv6 => ErrorKind::InvalidIpv6,
        UrlFault::BadIpv4 => ErrorKind::InvalidIpv4,
        UrlFault::BadPort => ErrorKind::InvalidPort,
        UrlFault::Other => ErrorKind::UnknownUrlError,
    }
}

/// What `validate` returns on a given input string: the string itself
/// when it parses, otherwise the error kind for the parse failure.
pub open spec fn validate_spec(s: Seq<char>) -> Result<Seq<char>, ErrorKind> {
    match url_parse_outcome(s) {
        None => Ok(s),
        Some(f) => Err(fault_kind(f)),
    }
}

/// Maps a parse-failure category to the error kind reported for it.
pub fn fault_to_kind(f: UrlFault) -> (k: ErrorKind)
    ensures
        k == fault_kind(f),
{
    match f {
        UrlFault::RelativeWithoutBase => ErrorKind::InvalidUrlBase,
        UrlFault::BadIpv6 => ErrorKind::InvalidIpv6,
        UrlFault::BadIpv4 => ErrorKind::InvalidIpv4,
        UrlFault::BadPort => ErrorKind::InvalidPort,
        UrlFault::Other => ErrorKind::UnknownUrlError,
    }
}

/// Parses the raw input as an absolute URL: on success the validated URL
/// carries the input text unchanged; on failure the error kind follows
/// the parse-failure category exactly.
pub fn validate(raw: &str) -> (r: Result<ValidatedUrl, ErrorKind>)
    ensures
        r is Ok <==> url_parse_outcome(raw@) is None,
        r matches Ok(u) ==> u@ == raw@ && validate_spec(raw@) == Ok::<Seq<char>, ErrorKind>(raw@),
        r matches Err(k) ==> validate_spec(raw@) == Err::<Seq<char>, ErrorKind>(k),
{
    match parse_outcome(raw) {
        None => Ok(ValidatedUrl { text: raw.to_owned() }),
        Some(f) => Err(fault_to_kind(f)),
    }
}

/// Validation is a pure function of the input string: two calls on equal
/// strings yield equal outcomes, so validating twice changes nothing.
pub proof fn lemma_validate_deterministic(a: Seq<char>, b: Seq<char>)
    requires
        a == b,
    ensures
        validate_spec(a) == validate_spec(b),
{
}

/// Each of the four specific parse-failure categories keeps its own
/// error kind: none of them is ever reported as the catch-all.
pub proof fn lemma_specific_fault_not_unknown(f: UrlFault)
    requires
        f !is Other,
    ensures
        fault_kind(f) !is UnknownUrlError,
{
}

} // verus!
