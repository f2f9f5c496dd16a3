//! The body of a request: the shape that the caller's value has, the rule
//! that picks one body, and the bytes that are sent for it.

use crate::error::{unbuildable, unbuildable_error, ErrorValue, ErrorView};
use crate::headers::{pairs_view, TextPair};
use vstd::prelude::*;
use vstd::slice::slice_to_vec;
use vstd::string::*;
use vstd::utf8::*;

verus! {

/// The shape that the caller's `data` value was found to have.
#[derive(Debug)]
pub enum DataValue {
    /// A text, sent as it is.
    Text(String),
    /// Bytes, sent as they are.
    Bytes(Vec<u8>),
    /// A mapping, sent as a form.
    Form(Vec<(String, String)>),
    /// Anything else.
    Unsupported,
}

/// The body of the outgoing request.
#[derive(Debug)]
pub enum Body {
    /// A text, sent as it is.
    Text(String),
    /// Bytes, sent as they are.
    Bytes(Vec<u8>),
    /// Pairs that the transport sends form-encoded.
    Form(Vec<(String, String)>),
    /// An encoded JSON document.
    Json(String),
    /// No body.
    Unset,
}

/// The five shapes of a body.
#[derive(Clone, Copy, Debug, PartialEq, Eq, Structural)]
pub enum BodyKind {
    Text,
    Bytes,
    Form,
    Json,
    Unset,
}

/// A `data` value as mathematical values.
pub enum DataView {
    Text(Seq<char>),
    Bytes(Seq<u8>),
    Form(Seq<TextPair>),
    Unsupported,
}

/// A body as mathematical values.
pub enum BodyView {
    Text(Seq<char>),
    Bytes(Seq<u8>),
    Form(Seq<TextPair>),
    Json(Seq<char>),
    Unset,
}

impl View for DataValue {
    type V = DataView;

    open spec fn view(&self) -> DataView {
        match self {
            DataValue::Text(t) => DataView::Text(t@),
            DataValue::Bytes(b) => DataView::Bytes(b@),
            DataValue::Form(f) => DataView::Form(pairs_view(f@)),
            DataValue::Unsupported => DataView::Unsupported,
        }
    }
}

impl View for Body {
    type V = BodyView;

    open spec fn view(&self) -> BodyView {
        match self {
            Body::Text(t) => BodyView::Text(t@),
            Body::Bytes(b) => BodyView::Bytes(b@),
            Body::Form(f) => BodyView::Form(pairs_view(f@)),
            Body::Json(j) => BodyView::Json(j@),
            Body::Unset => BodyView::Unset,
        }
    }
}

impl BodyView {
    /// The shape of the body.
    pub open spec fn kind(self) -> BodyKind {
        match self {
            BodyView::Text(_) => BodyKind::Text,
            BodyView::Bytes(_) => BodyKind::Bytes,
            BodyView::Form(_) => BodyKind::Form,
            BodyView::Json(_) => BodyKind::Json,
            BodyView::Unset => BodyKind::Unset,
        }
    }
}

/// The body rule: a JSON payload wins; else the data value in its own shape;
/// a shape that is not supported gives no body.
pub open spec fn chosen_body(json: Option<Seq<char>>, data: Option<DataView>) -> BodyView {
    match json {
        Some(j) => BodyView::Json(j),
        None => match data {
            Some(DataView::Text(t)) => BodyView::Text(t),
            Some(DataView::Bytes(b)) => BodyView::Bytes(b),
            Some(DataView::Form(f)) => BodyView::Form(f),
            Some(DataView::Unsupported) => BodyView::Unset,
            None => BodyView::Unset,
        },
    }
}

/// The form encoding of a list of pairs, or why they cannot be encoded.
pub uninterp spec fn form_encoding(pairs: Seq<TextPair>) -> Result<Seq<char>, Seq<char>>;

/// `serde_urlencoded::to_string`: the pairs in the
/// `application/x-www-form-urlencoded` format. What comes back depends on
/// the pairs alone.
#[verifier::external_body]
fn transport_form_encoding(pairs: &Vec<(String, String)>) -> (r: Result<String, String>)
    ensures
        match r {
            Ok(encoded) => form_encoding(pairs_view(pairs@)) == Ok::<Seq<char>, Seq<char>>(
                encoded@,
            ),
            Err(detail) => form_encoding(pairs_view(pairs@)) == Err::<Seq<char>, Seq<char>>(
                detail@,
            ),
        },
{
    match serde_urlencoded::to_string(pairs) {
        Ok(encoded) => Ok(encoded),
        Err(e) => Err(e.to_string()),
    }
}

/// The bytes that are sent as the body: a text or a JSON document in UTF-8,
/// bytes as they are, a form in its encoding, and nothing for no body.
pub open spec fn payload_of(body: BodyView) -> Result<Option<Seq<u8>>, ErrorView> {
    match body {
        BodyView::Text(t) => Ok(Some(encode_utf8(t))),
        BodyView::Bytes(b) => Ok(Some(b)),
        BodyView::Json(j) => Ok(Some(encode_utf8(j))),
        BodyView::Form(pairs) => match form_encoding(pairs) {
            Ok(encoded) => Ok(Some(encode_utf8(encoded))),
            Err(detail) => Err(unbuildable(detail)),
        },
        BodyView::Unset => Ok(None),
    }
}

/// The outcome of making the body bytes, as mathematical values.
pub open spec fn payload_result_view(r: Result<Option<Vec<u8>>, ErrorValue>) -> Result<
    Option<Seq<u8>>,
    ErrorView,
> {
    match r {
        Ok(Some(bytes)) => Ok(Some(bytes@)),
        Ok(None) => Ok(None),
        Err(e) => Err(e@),
    }
}

impl Body {
    /// The shape of the body.
    pub fn kind(&self) -> (k: BodyKind)
        ensures
            k == self@.kind(),
    {
        match self {
            Body::Text(_) => BodyKind::Text,
            Body::Bytes(_) => BodyKind::Bytes,
            Body::Form(_) => BodyKind::Form,
            Body::Json(_) => BodyKind::Json,
            Body::Unset => BodyKind::Unset,
        }
    }

    /// The bytes that are sent for this body.
    pub fn payload(&self) -> (r: Result<Option<Vec<u8>>, ErrorValue>)
        ensures
            payload_result_view(r) == payload_of(self@),
    {
        match self {
            Body::Text(t) => Ok(Some(t.as_str().as_bytes_vec())),
            Body::Bytes(b) => Ok(Some(slice_to_vec(b.as_slice()))),
            Body::Json(j) => Ok(Some(j.as_str().as_bytes_vec())),
            Body::Form(pairs) => match transport_form_encoding(pairs) {
                Ok(encoded) => Ok(Some(encoded.as_str().as_bytes_vec())),
                Err(detail) => Err(unbuildable_error(detail)),
            },
            Body::Unset => Ok(None),
        }
    }
}

/// Whether the body rule looks at the data value at all: it does so only
/// where no JSON payload was given.
pub open spec fn data_is_read(json: Option<Seq<char>>) -> bool {
    json is None
}

/// Where the data value is not read, it has no part in the body.
pub proof fn lemma_unread_data_has_no_part(
    json: Option<Seq<char>>,
    data: Option<DataView>,
    other: Option<DataView>,
)
    requires
        !data_is_read(json),
    ensures
        chosen_body(json, data) == chosen_body(json, other),
{
}

/// Whether the caller's data value has to be looked at, given the JSON
/// payload.
pub fn reads_data(json: &Option<String>) -> (b: bool)
    ensures
        b == data_is_read(
            match json {
                Some(j) => Some(j@),
                None => None,
            },
        ),
{
    json.is_none()
}

/// Applies the body rule.
pub fn select_body(json: Option<String>, data: Option<DataValue>) -> (body: Body)
    ensures
        body@ == chosen_body(
            match json {
                Some(j) => Some(j@),
                None => None,
            },
            match data {
                Some(d) => Some(d@),
                None => None,
            },
        ),
{
    match json {
        Some(j) => Body::Json(j),
        None => match data {
            Some(DataValue::Text(t)) => Body::Text(t),
            Some(DataValue::Bytes(b)) => Body::Bytes(b),
            Some(DataValue::Form(f)) => Body::Form(f),
            Some(DataValue::Unsupported) => Body::Unset,
            None => Body::Unset,
        },
    }
}

} // verus!
