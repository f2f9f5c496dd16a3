//! The response as it came back: status, final URL, headers and the fully
//! buffered body, with accessors that decode the body without consuming it.

use crate::error::{
    body_unavailable_message, bytes_result_view, check_result_view, http_error_message,
    invalid_encoding_message, text_result_view, ErrorKind, ErrorValue, ErrorView,
};
use crate::headers::{fold_headers, is_header_list, pairs_view, HeaderMap, TextPair};
use crate::json::{next_strategy, strategy_after, JsonStrategy};
use crate::text::{ascii_lower, string_from_utf8, utf8_error_text};
use bytes::Bytes;
use vstd::prelude::*;
use vstd::slice::slice_to_vec;
use vstd::string::*;
use vstd::utf8::*;

verus! {

/// The transport's byte buffer.
#[verifier::external_type_specification]
#[verifier::external_body]
pub struct ExBytes(bytes::Bytes);

/// The bytes that a buffer holds.
pub uninterp spec fn buffered(buffer: Bytes) -> Seq<u8>;

/// `Bytes::as_ref`: the buffer's contents as a slice.
#[verifier::external_body]
fn buffer_slice(buffer: &Bytes) -> (s: &[u8])
    ensures
        s@ == buffered(*buffer),
{
    buffer.as_ref()
}

/// A header as the transport hands it over: the name, and the value where
/// it could be read as text.
pub type RawHeader = (String, Option<String>);

/// The writes that a list of raw headers stands for: a value that could not
/// be read counts as the empty text.
pub open spec fn raw_headers_view(raw: Seq<RawHeader>) -> Seq<TextPair> {
    Seq::new(
        raw.len(),
        |i: int|
            (
                raw[i].0@,
                match raw[i].1 {
                    Some(v) => v@,
                    None => Seq::empty(),
                },
            ),
    )
}

/// A [`Response`] as mathematical values.
pub struct ResponseView {
    pub status_code: u16,
    pub url: Seq<char>,
    pub headers: Map<Seq<char>, Seq<char>>,
    pub body: Option<Seq<u8>>,
}

/// A received response.
#[derive(Debug)]
pub struct Response {
    status_code: u16,
    url: String,
    headers: HeaderMap,
    body: Option<Bytes>,
}

impl View for Response {
    type V = ResponseView;

    closed spec fn view(&self) -> ResponseView {
        ResponseView {
            status_code: self.status_code,
            url: self.url@,
            headers: self.headers@,
            body: match self.body {
                Some(b) => Some(buffered(b)),
                None => None,
            },
        }
    }
}

/// The failure of an access to a body that was never captured.
pub open spec fn body_unavailable_error() -> ErrorView {
    ErrorView {
        kind: ErrorKind::BodyUnavailable,
        message: body_unavailable_message(),
        status: None,
    }
}

/// The failure of decoding these bytes as text.
pub open spec fn invalid_encoding_error(bytes: Seq<u8>) -> ErrorView {
    ErrorView {
        kind: ErrorKind::InvalidEncoding,
        message: invalid_encoding_message(utf8_error_text(bytes)),
        status: None,
    }
}

/// The failure of the status check on this status.
pub open spec fn http_error(status: u16) -> ErrorView {
    ErrorView {
        kind: ErrorKind::HTTPError,
        message: http_error_message(status),
        status: Some(status),
    }
}

/// What `content` gives: the buffered bytes, unchanged.
pub open spec fn content_of(r: ResponseView) -> Result<Seq<u8>, ErrorView> {
    match r.body {
        Some(b) => Ok(b),
        None => Err(body_unavailable_error()),
    }
}

/// What `text` gives: the characters that the buffered bytes encode.
pub open spec fn text_of(r: ResponseView) -> Result<Seq<char>, ErrorView> {
    match r.body {
        Some(b) => if valid_utf8(b) {
            Ok(decode_utf8(b))
        } else {
            Err(invalid_encoding_error(b))
        },
        None => Err(body_unavailable_error()),
    }
}

/// What the status check gives: a failure from 400 on.
pub open spec fn status_check_of(r: ResponseView) -> Result<(), ErrorView> {
    if r.status_code >= 400 {
        Err(http_error(r.status_code))
    } else {
        Ok(())
    }
}

/// What is done next while a body is decoded as JSON.
#[derive(Debug)]
pub enum DecodeStep {
    /// Run this decoder on the buffered bytes.
    Try(JsonStrategy, Vec<u8>),
    /// The body cannot be decoded.
    Fail(ErrorValue),
}

/// A [`DecodeStep`] as mathematical values.
pub enum DecodeStepView {
    Try(JsonStrategy, Seq<u8>),
    Fail(ErrorView),
}

impl View for DecodeStep {
    type V = DecodeStepView;

    open spec fn view(&self) -> DecodeStepView {
        match self {
            DecodeStep::Try(s, b) => DecodeStepView::Try(*s, b@),
            DecodeStep::Fail(e) => DecodeStepView::Fail(e@),
        }
    }
}

/// The failure of decoding, in the words of the decoder that failed last.
pub open spec fn decode_error(detail: Seq<char>) -> ErrorView {
    ErrorView { kind: ErrorKind::DecodeError, message: detail, status: None }
}

/// The first step of decoding: the fast decoder gets the buffered bytes.
pub open spec fn json_first_step(r: ResponseView) -> DecodeStepView {
    match r.body {
        Some(b) => DecodeStepView::Try(JsonStrategy::Fast, b),
        None => DecodeStepView::Fail(body_unavailable_error()),
    }
}

/// The step after a decoder has failed with `detail`: the next decoder gets
/// the same buffered bytes, and the failure of the last decoder is handed on
/// in its own words.
pub open spec fn json_step_after(r: ResponseView, tried: JsonStrategy, detail: Seq<char>)
    -> DecodeStepView {
    match r.body {
        Some(b) => match strategy_after(Some(tried)) {
            Some(next) => DecodeStepView::Try(next, b),
            None => DecodeStepView::Fail(decode_error(detail)),
        },
        None => DecodeStepView::Fail(body_unavailable_error()),
    }
}

/// On a captured body every decoder is handed the buffered bytes, unchanged,
/// and the only failure is the one that the last decoder reported, in its
/// own words.
pub proof fn lemma_json_failure_is_the_decoders(
    response: ResponseView,
    tried: JsonStrategy,
    detail: Seq<char>,
)
    requires
        response.body is Some,
    ensures
        json_first_step(response) == DecodeStepView::Try(JsonStrategy::Fast, response.body->0),
        json_step_after(response, tried, detail) matches DecodeStepView::Try(_, bytes) ==> bytes
            == response.body->0,
        json_step_after(response, tried, detail) matches DecodeStepView::Fail(e) ==> tried
            == JsonStrategy::Standard && e == decode_error(detail),
{
}

/// Reading the content twice gives the same answer both times: the same
/// bytes, or the same failure.
pub proof fn lemma_content_is_idempotent(
    response: Response,
    first: Result<Vec<u8>, ErrorValue>,
    second: Result<Vec<u8>, ErrorValue>,
)
    requires
        bytes_result_view(first) == content_of(response@),
        bytes_result_view(second) == content_of(response@),
    ensures
        bytes_result_view(first) == bytes_result_view(second),
        first matches Ok(a) ==> second matches Ok(b) && a@ == b@,
        first matches Err(a) ==> second matches Err(b) && a@ == b@,
{
}

/// Reading the text twice gives the same answer both times.
pub proof fn lemma_text_is_idempotent(
    response: Response,
    first: Result<String, ErrorValue>,
    second: Result<String, ErrorValue>,
)
    requires
        text_result_view(first) == text_of(response@),
        text_result_view(second) == text_of(response@),
    ensures
        text_result_view(first) == text_result_view(second),
        first matches Ok(a) ==> second matches Ok(b) && a@ == b@,
        first matches Err(a) ==> second matches Err(b) && a@ == b@,
{
}

/// The text and the content are read off the same bytes: where the text can
/// be read, it encodes to the content.
pub proof fn lemma_text_agrees_with_content(response: ResponseView)
    requires
        text_of(response) is Ok,
    ensures
        content_of(response) is Ok,
        encode_utf8(text_of(response)->Ok_0) == content_of(response)->Ok_0,
{
    broadcast use vstd::utf8::group_utf8_lib;
}

/// A status below 400 passes the check and every other status fails it with
/// that status.
pub proof fn lemma_status_check(response: ResponseView)
    ensures
        response.status_code < 400 <==> status_check_of(response) is Ok,
        status_check_of(response) matches Err(e) ==> e.kind == ErrorKind::HTTPError && e.status
            == Some(response.status_code),
{
}

/// The writes that a list of raw headers stands for.
pub fn raw_header_writes(raw: &Vec<RawHeader>) -> (writes: Vec<(String, String)>)
    ensures
        pairs_view(writes@) == raw_headers_view(raw@),
{
    let mut writes: Vec<(String, String)> = Vec::new();
    let mut i: usize = 0;
    while i < raw.len()
        invariant
            i <= raw@.len(),
            writes@.len() == i,
            forall|j: int|
                0 <= j < i ==> (#[trigger] writes@[j]).0@ == raw@[j].0@ && writes@[j].1@
                    == raw_headers_view(raw@)[j].1,
        decreases raw@.len() - i,
    {
        let value = match &raw[i].1 {
            Some(v) => v.clone(),
            None => String::new(),
        };
        writes.push((raw[i].0.clone(), value));
        i += 1;
    }
    assert(pairs_view(writes@) =~= raw_headers_view(raw@));
    writes
}

impl Response {
    /// Captures what the transport received. Headers are folded in their
    /// order, so that of two with one name the later one stays.
    pub fn new(status_code: u16, url: String, headers: &Vec<RawHeader>, body: Option<Bytes>) -> (r:
        Response)
        ensures
            r@ == (ResponseView {
                status_code,
                url: url@,
                headers: fold_headers(raw_headers_view(headers@)),
                body: match body {
                    Some(b) => Some(buffered(b)),
                    None => None,
                },
            }),
    {
        let writes = raw_header_writes(headers);
        Response { status_code, url, headers: HeaderMap::from_pairs(&writes), body }
    }

    /// The status code.
    pub fn status_code(&self) -> (code: u16)
        ensures
            code == self@.status_code,
    {
        self.status_code
    }

    /// The URL that the response came from, after any redirects that the
    /// transport followed.
    pub fn url(&self) -> (url: String)
        ensures
            url@ == self@.url,
    {
        self.url.clone()
    }

    /// A fresh snapshot of the headers: each name once, in lower case.
    pub fn headers(&self) -> (pairs: Vec<(String, String)>)
        ensures
            is_header_list(pairs_view(pairs@)),
            fold_headers(pairs_view(pairs@)) == self@.headers,
    {
        self.headers.to_pairs()
    }

    /// The value of one header.
    pub fn header(&self, name: &str) -> (r: Option<&str>)
        ensures
            match r {
                Some(v) => self@.headers.contains_key(ascii_lower(name@)) && v@
                    == self@.headers[ascii_lower(name@)],
                None => !self@.headers.contains_key(ascii_lower(name@)),
            },
    {
        self.headers.get(name)
    }

    /// The buffered bytes, unchanged.
    pub fn content(&self) -> (r: Result<Vec<u8>, ErrorValue>)
        ensures
            bytes_result_view(r) == content_of(self@),
    {
        match &self.body {
            Some(buffer) => Ok(slice_to_vec(buffer_slice(buffer))),
            None => Err(ErrorValue::body_unavailable()),
        }
    }

    /// The body decoded as UTF-8.
    pub fn text(&self) -> (r: Result<String, ErrorValue>)
        ensures
            text_result_view(r) == text_of(self@),
    {
        match &self.body {
            Some(buffer) => match string_from_utf8(slice_to_vec(buffer_slice(buffer))) {
                Ok(text) => Ok(text),
                Err(detail) => Err(ErrorValue::invalid_encoding(detail.as_str())),
            },
            None => Err(ErrorValue::body_unavailable()),
        }
    }

    /// Begins decoding the body as JSON.
    pub fn json(&self) -> (step: DecodeStep)
        ensures
            step@ == json_first_step(self@),
    {
        match self.content() {
            Ok(bytes) => DecodeStep::Try(JsonStrategy::Fast, bytes),
            Err(e) => DecodeStep::Fail(e),
        }
    }

    /// Goes on after the decoder `tried` has failed with `detail`.
    pub fn json_retry(&self, tried: JsonStrategy, detail: String) -> (step: DecodeStep)
        ensures
            step@ == json_step_after(self@, tried, detail@),
    {
        match self.content() {
            Ok(bytes) => match next_strategy(Some(tried)) {
                Some(next) => DecodeStep::Try(next, bytes),
                None => DecodeStep::Fail(ErrorValue::new(ErrorKind::DecodeError, detail)),
            },
            Err(e) => DecodeStep::Fail(e),
        }
    }

    /// Fails with `HTTPError` where the status is 400 or above, and does
    /// nothing otherwise.
    pub fn raise_for_status(&self) -> (r: Result<(), ErrorValue>)
        ensures
            check_result_view(r) == status_check_of(self@),
    {
        if self.status_code >= 400 {
            Err(ErrorValue::http(self.status_code))
        } else {
            Ok(())
        }
    }
}

} // verus!
