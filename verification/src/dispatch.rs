use vstd::prelude::*;
use crate::errors::ErrorKind;
use crate::errors::kind_message;
use crate::errors::spec_kind_message;
use crate::validator::ValidatedUrl;

verus! {

/// The HTTP method this tool can issue.
#[derive(Clone, Copy, Debug, PartialEq, Eq, Structural)]
pub enum Method {
    Get,
    Post,
}

/// The body handed in for a POST: either raw `key=value` text sent
/// verbatim, or a string to be sent as a JSON-encoded string literal.
#[derive(Debug, PartialEq, Eq)]
pub enum BodyPayload {
    RawForm(String),
    Json(String),
}

/// One request to be dispatched: a validated URL, a resolved method, and
/// the body that goes with it.
pub struct RequestSpec {
    pub url: ValidatedUrl,
    pub method: Method,
    pub body: Option<BodyPayload>,
}

impl RequestSpec {
    /// A GET carries no body; a POST always carries one.
    pub open spec fn wf(self) -> bool {
        match self.method {
            Method::Get => self.body is None,
            Method::Post => self.body is Some,
        }
    }
}

/// A configuration fault found before any network call is attempted.
#[derive(Clone, Copy, Debug, PartialEq, Eq, Structural)]
pub enum UsageError {
    MissingPostBody,
}

/// The message printed for a pre-flight usage error.
pub open spec fn spec_usage_message(e: UsageError) -> Seq<char> {
    "Error, no <key>=<value>&... provided."@
}

/// The message printed for a pre-flight usage error.
pub fn usage_message(e: &UsageError) -> (m: String)
    ensures
        m@ == spec_usage_message(*e),
{
    "Error, no <key>=<value>&... provided.".to_owned()
}

/// Resolves the requested method against the supplied bodies: a JSON body
/// forces POST whatever the method flag said; a POST without a JSON body
/// requires the raw form body; a GET ignores a raw form body.
pub fn resolve_request(
    url: ValidatedUrl,
    method: Method,
    json: Option<String>,
    key_val: Option<String>,
) -> (r: Result<RequestSpec, UsageError>)
    ensures
        r is Err <==> method is Post && json is None && key_val is None,
        r matches Err(e) ==> e is MissingPostBody,
        r matches Ok(req) ==> req.wf() && req.url == url,
        r matches Ok(req) ==> (json matches Some(j) ==> req.method is Post && req.body == Some(
            BodyPayload::Json(j),
        )),
        r matches Ok(req) ==> ((json is None && method is Get) ==> req.method is Get && req.body
            is None),
        r matches Ok(req) ==> ((json is None && method is Post) ==> req.method is Post && (key_val
            matches Some(kv) && req.body == Some(BodyPayload::RawForm(kv)))),
{
    match json {
        Some(j) => Ok(RequestSpec { url, method: Method::Post, body: Some(BodyPayload::Json(j)) }),
        None => match method {
            Method::Get => Ok(RequestSpec { url, method: Method::Get, body: None }),
            Method::Post => match key_val {
                Some(kv) => Ok(
                    RequestSpec { url, method: Method::Post, body: Some(BodyPayload::RawForm(kv)) },
                ),
                None => Err(UsageError::MissingPostBody),
            },
        },
    }
}

/// What encoding a string as one JSON string literal yields: the quoted,
/// escaped form that goes on the wire.
pub uninterp spec fn json_string_encoding(s: Seq<char>) -> Seq<char>;

/// Relies on `serde_json::to_string` applied to a string value: it writes
/// exactly one JSON string literal, a pure function of the characters,
/// and serializing a string value never fails.
#[verifier::external_body]
fn encode_json_string(s: &String) -> (r: String)
    ensures
        r@ == json_string_encoding(s@),
{
    serde_json::to_string(s).unwrap()
}

/// What the transport is told to send: the validated URL, the method, the
/// exact body bytes, and whether to mark the body as JSON.
pub struct PreparedRequest {
    pub url: ValidatedUrl,
    pub method: Method,
    pub body: Option<String>,
    pub json_content_type: bool,
}

/// The prepared request carries the request's URL and method unchanged;
/// a raw form body goes on the wire verbatim, a JSON body goes as its
/// JSON string-literal encoding, and only a JSON body sets the JSON
/// content type.
pub open spec fn prepared_matches(p: PreparedRequest, req: RequestSpec) -> bool {
    &&& p.url == req.url
    &&& p.method == req.method
    &&& match req.body {
        None => p.body is None && !p.json_content_type,
        Some(BodyPayload::RawForm(s)) => p.body matches Some(b) && b@ == s@
            && !p.json_content_type,
        Some(BodyPayload::Json(s)) => p.body matches Some(b) && b@ == json_string_encoding(s@)
            && p.json_content_type,
    }
}

/// Turns a resolved request into the exact wire description the
/// transport is handed.
pub fn prepare(req: RequestSpec) -> (p: PreparedRequest)
    ensures
        prepared_matches(p, req),
{
    match req.body {
        None => PreparedRequest {
            url: req.url,
            method: req.method,
            body: None,
            json_content_type: false,
        },
        Some(BodyPayload::RawForm(s)) => PreparedRequest {
            url: req.url,
            method: req.method,
            body: Some(s),
            json_content_type: false,
        },
        Some(BodyPayload::Json(s)) => {
            let encoded = encode_json_string(&s);
            PreparedRequest {
                url: req.url,
                method: req.method,
                body: Some(encoded),
                json_content_type: true,
            }
        },
    }
}

/// The terminal outcome the transport reports for one request: either a
/// response with its status and body text, or a transport-level failure,
/// flagged as a builder fault or a connection fault, with its detail text.
pub enum TransportOutcome {
    Response { status: u16, body: String },
    Failed { builder: bool, request: bool, detail: String },
}

/// The error kind a transport outcome is classified as; `None` means the
/// request succeeded (a response with a 2xx status).
pub open spec fn spec_classified_kind(o: TransportOutcome) -> Option<ErrorKind> {
    match o {
        TransportOutcome::Response { status, body } => if 200 <= status < 300 {
            None
        } else {
            Some(ErrorKind::HttpStatusError(status))
        },
        TransportOutcome::Failed { builder, request, detail } => if builder {
            Some(ErrorKind::TransportBuilderError)
        } else if request {
            Some(ErrorKind::ConnectionFailed)
        } else {
            Some(ErrorKind::OtherTransportError(detail))
        },
    }
}

/// What one request ends in: the response body on success, otherwise the
/// classified error with its user-facing message.
#[derive(Debug, PartialEq, Eq)]
pub enum RequestResult {
    Success(String),
    Failure(ErrorKind, String),
}

/// The one shared classification routine: every path, GET or POST, maps
/// its transport outcome through it, so the taxonomy and the message
/// texts cannot drift between methods. A 2xx response succeeds with the
/// body text; everything else fails with the classified kind and that
/// kind's fixed message.
pub fn classify_outcome(outcome: TransportOutcome) -> (r: RequestResult)
    ensures
        r is Success <==> spec_classified_kind(outcome) is None,
        r matches RequestResult::Success(b) ==> outcome matches TransportOutcome::Response {
            status,
            body,
        } && b == body && 200 <= status < 300,
        r matches RequestResult::Failure(k, m) ==> spec_classified_kind(outcome) == Some(k) && m@
            == spec_kind_message(k),
{
    match outcome {
        TransportOutcome::Response { status, body } => {
            if 200 <= status && status < 300 {
                RequestResult::Success(body)
            } else {
                let k = ErrorKind::HttpStatusError(status);
                let m = kind_message(&k);
                RequestResult::Failure(k, m)
            }
        },
        TransportOutcome::Failed { builder, request, detail } => {
            if builder {
                let k = ErrorKind::TransportBuilderError;
                let m = kind_message(&k);
                RequestResult::Failure(k, m)
            } else if request {
                let k = ErrorKind::ConnectionFailed;
                let m = kind_message(&k);
                RequestResult::Failure(k, m)
            } else {
                let m = detail.clone();
                RequestResult::Failure(ErrorKind::OtherTransportError(detail), m)
            }
        },
    }
}

} // verus!
