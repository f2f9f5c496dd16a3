//! The closed set of failure kinds and the value that carries one of them.

use crate::text::{decimal, push_decimal};
use vstd::prelude::*;
use vstd::string::*;

verus! {

/// One label of the error taxonomy.
#[derive(Clone, Copy, Debug, PartialEq, Eq, Structural)]
pub enum ErrorKind {
    /// The method is not a valid HTTP token.
    InvalidMethod,
    /// A client could not be built.
    ConstructionError,
    /// The transport gave up waiting.
    Timeout,
    /// The connection could not be established.
    ConnectTimeout,
    /// The peer stopped sending.
    ReadTimeout,
    /// The transport's redirect cap was hit.
    TooManyRedirects,
    /// Any other transport failure.
    ConnectionError,
    /// The status check found a status of 400 or above.
    HTTPError,
    /// The body is not valid UTF-8.
    InvalidEncoding,
    /// No JSON encoder accepted the payload.
    EncodeError,
    /// No JSON decoder accepted the body.
    DecodeError,
    /// The response holds no buffered body.
    BodyUnavailable,
}

impl ErrorKind {
    /// `Timeout` and its two subtypes.
    pub open spec fn in_timeout_family(self) -> bool {
        self == ErrorKind::Timeout || self == ErrorKind::ConnectTimeout || self
            == ErrorKind::ReadTimeout
    }

    /// Whether a handler for `Timeout` also catches this kind.
    pub fn is_timeout(self) -> (b: bool)
        ensures
            b == self.in_timeout_family(),
    {
        match self {
            ErrorKind::Timeout | ErrorKind::ConnectTimeout | ErrorKind::ReadTimeout => true,
            _ => false,
        }
    }
}

/// What an [`ErrorValue`] holds, as mathematical values.
pub struct ErrorView {
    pub kind: ErrorKind,
    pub message: Seq<char>,
    pub status: Option<u16>,
}

/// A failure: its kind, a message for people, and the HTTP status where the
/// failure is a status check that did not pass.
#[derive(Debug)]
pub struct ErrorValue {
    kind: ErrorKind,
    message: String,
    status: Option<u16>,
}

impl View for ErrorValue {
    type V = ErrorView;

    closed spec fn view(&self) -> ErrorView {
        ErrorView { kind: self.kind, message: self.message@, status: self.status }
    }
}

/// The outcome of reading bytes, as mathematical values.
pub open spec fn bytes_result_view(r: Result<Vec<u8>, ErrorValue>) -> Result<Seq<u8>, ErrorView> {
    match r {
        Ok(bytes) => Ok(bytes@),
        Err(e) => Err(e@),
    }
}

/// The outcome of reading a text, as mathematical values.
pub open spec fn text_result_view(r: Result<String, ErrorValue>) -> Result<Seq<char>, ErrorView> {
    match r {
        Ok(text) => Ok(text@),
        Err(e) => Err(e@),
    }
}

/// The outcome of a check, as mathematical values.
pub open spec fn check_result_view(r: Result<(), ErrorValue>) -> Result<(), ErrorView> {
    match r {
        Ok(()) => Ok(()),
        Err(e) => Err(e@),
    }
}

/// The message of an invalid method: the transport's own words after a prefix.
pub open spec fn invalid_method_message(detail: Seq<char>) -> Seq<char> {
    "Invalid HTTP method: "@ + detail
}

/// The message of a client that could not be built.
pub open spec fn construction_message(detail: Seq<char>) -> Seq<char> {
    "Failed to create client: "@ + detail
}

/// The message of a status check that did not pass.
pub open spec fn http_error_message(status: u16) -> Seq<char> {
    "HTTP "@ + decimal(status as nat) + " Error"@
}

/// The message of a body that is not UTF-8.
pub open spec fn invalid_encoding_message(detail: Seq<char>) -> Seq<char> {
    "Failed to decode UTF-8: "@ + detail
}

/// The message of a response without a buffered body.
pub open spec fn body_unavailable_message() -> Seq<char> {
    "Response body already consumed"@
}

/// What the transport reports of a request that failed.
#[derive(Debug)]
pub struct TransportFailure {
    /// The transport gave up waiting.
    pub timed_out: bool,
    /// The connection could not be established.
    pub connect: bool,
    /// The redirect policy was violated.
    pub redirect: bool,
    /// The transport's own description.
    pub detail: String,
}

/// The kind of a transport failure. The reports are read in a fixed order:
/// a timeout first, then a failed connection, then a redirect violation;
/// what is none of these is a plain connection error.
pub open spec fn transport_failure_kind(timed_out: bool, connect: bool, redirect: bool)
    -> ErrorKind {
    if timed_out {
        ErrorKind::Timeout
    } else if connect {
        ErrorKind::ConnectTimeout
    } else if redirect {
        ErrorKind::TooManyRedirects
    } else {
        ErrorKind::ConnectionError
    }
}

/// The words that open the message of a transport failure of each kind.
pub open spec fn transport_failure_prefix(kind: ErrorKind) -> Seq<char> {
    match kind {
        ErrorKind::Timeout => "Request timed out: "@,
        ErrorKind::ConnectTimeout => "Connection timeout: "@,
        ErrorKind::TooManyRedirects => "Too many redirects: "@,
        _ => "Connection error: "@,
    }
}

/// The failure that a transport report is classified as.
pub open spec fn classified(timed_out: bool, connect: bool, redirect: bool, detail: Seq<char>)
    -> ErrorView {
    let kind = transport_failure_kind(timed_out, connect, redirect);
    ErrorView { kind, message: transport_failure_prefix(kind) + detail, status: None }
}

/// Classifies a transport failure.
pub fn classify_transport_failure(failure: &TransportFailure) -> (e: ErrorValue)
    ensures
        e@ == classified(failure.timed_out, failure.connect, failure.redirect, failure.detail@),
{
    let detail = failure.detail.as_str();
    if failure.timed_out {
        ErrorValue::with_detail(ErrorKind::Timeout, "Request timed out: ", detail)
    } else if failure.connect {
        ErrorValue::with_detail(ErrorKind::ConnectTimeout, "Connection timeout: ", detail)
    } else if failure.redirect {
        ErrorValue::with_detail(ErrorKind::TooManyRedirects, "Too many redirects: ", detail)
    } else {
        ErrorValue::with_detail(ErrorKind::ConnectionError, "Connection error: ", detail)
    }
}

/// The failure of a request that could not be put together: it is none of
/// the transport's special cases.
pub open spec fn unbuildable(detail: Seq<char>) -> ErrorView {
    classified(false, false, false, detail)
}

/// The failure of a request that could not be put together, from what the
/// transport said of it.
pub fn unbuildable_error(detail: String) -> (e: ErrorValue)
    ensures
        e@ == unbuildable(detail@),
{
    classify_transport_failure(
        &TransportFailure { timed_out: false, connect: false, redirect: false, detail },
    )
}

/// Every transport failure is classified as one of four kinds, and a
/// reported timeout is always in the timeout family.
pub proof fn lemma_classification_is_closed(timed_out: bool, connect: bool, redirect: bool)
    ensures
        ({
            let kind = transport_failure_kind(timed_out, connect, redirect);
            kind == ErrorKind::Timeout || kind == ErrorKind::ConnectTimeout || kind
                == ErrorKind::TooManyRedirects || kind == ErrorKind::ConnectionError
        }),
        timed_out ==> transport_failure_kind(timed_out, connect, redirect).in_timeout_family(),
{
}

impl ErrorValue {
    /// A failure of the given kind with the given message and no status.
    pub fn new(kind: ErrorKind, message: String) -> (e: ErrorValue)
        ensures
            e@ == (ErrorView { kind, message: message@, status: None }),
    {
        ErrorValue { kind, message, status: None }
    }

    /// A failure whose message is `prefix` followed by `detail`.
    pub fn with_detail(kind: ErrorKind, prefix: &str, detail: &str) -> (e: ErrorValue)
        ensures
            e@ == (ErrorView { kind, message: prefix@ + detail@, status: None }),
    {
        let mut message = String::from_str(prefix);
        message.append(detail);
        ErrorValue { kind, message, status: None }
    }

    /// The method was refused; `detail` is what the transport said of it.
    pub fn invalid_method(detail: &str) -> (e: ErrorValue)
        ensures
            e@ == (ErrorView {
                kind: ErrorKind::InvalidMethod,
                message: invalid_method_message(detail@),
                status: None,
            }),
    {
        ErrorValue::with_detail(ErrorKind::InvalidMethod, "Invalid HTTP method: ", detail)
    }

    /// A client could not be built; `detail` is what the transport said.
    pub fn construction(detail: &str) -> (e: ErrorValue)
        ensures
            e@ == (ErrorView {
                kind: ErrorKind::ConstructionError,
                message: construction_message(detail@),
                status: None,
            }),
    {
        ErrorValue::with_detail(ErrorKind::ConstructionError, "Failed to create client: ", detail)
    }

    /// The status check found `status`.
    pub fn http(status: u16) -> (e: ErrorValue)
        ensures
            e@ == (ErrorView {
                kind: ErrorKind::HTTPError,
                message: http_error_message(status),
                status: Some(status),
            }),
    {
        let mut message = String::from_str("HTTP ");
        push_decimal(&mut message, status);
        message.append(" Error");
        ErrorValue { kind: ErrorKind::HTTPError, message, status: Some(status) }
    }

    /// The body is not UTF-8; `detail` is what the decoder said.
    pub fn invalid_encoding(detail: &str) -> (e: ErrorValue)
        ensures
            e@ == (ErrorView {
                kind: ErrorKind::InvalidEncoding,
                message: invalid_encoding_message(detail@),
                status: None,
            }),
    {
        ErrorValue::with_detail(ErrorKind::InvalidEncoding, "Failed to decode UTF-8: ", detail)
    }

    /// The response holds no buffered body.
    pub fn body_unavailable() -> (e: ErrorValue)
        ensures
            e@ == (ErrorView {
                kind: ErrorKind::BodyUnavailable,
                message: body_unavailable_message(),
                status: None,
            }),
    {
        ErrorValue::new(
            ErrorKind::BodyUnavailable,
            String::from_str("Response body already consumed"),
        )
    }

    /// The taxonomy kind.
    pub fn kind(&self) -> (k: ErrorKind)
        ensures
            k == self@.kind,
    {
        self.kind
    }

    /// The message.
    pub fn message(&self) -> (m: &str)
        ensures
            m@ == self@.message,
    {
        self.message.as_str()
    }

    /// The HTTP status, where the failure carries one.
    pub fn status_code(&self) -> (s: Option<u16>)
        ensures
            s == self@.status,
    {
        self.status
    }
}

} // verus!
