//! The request as the caller describes it, and the single outgoing
//! transaction that it is normalized into.

use crate::body::{
    chosen_body, payload_of, payload_result_view, select_body, Body, BodyKind, BodyView,
    DataValue, DataView,
};
use crate::config::{client_for, select_client, ClientChoice, Timeout};
use crate::error::{text_result_view, unbuildable, unbuildable_error, ErrorValue, ErrorView};
use crate::headers::{fold_headers, pairs_view, HeaderMap, TextPair};
use crate::method::{invalid_method_error, is_method_token, Method};
use crate::text::{ascii_lower, upper_form};
use vstd::prelude::*;
use vstd::string::*;
use vstd::utf8::*;

verus! {

/// The name under which the content type is held.
pub open spec fn content_type_name() -> Seq<char> {
    "content-type"@
}

/// The content type of a JSON body.
pub open spec fn json_content_type() -> Seq<char> {
    "application/json"@
}

/// The content type of a form body.
pub open spec fn form_content_type() -> Seq<char> {
    "application/x-www-form-urlencoded"@
}

/// The header rule: the caller's headers, a later one replacing an earlier
/// one of the same name, and over them the content type that a JSON or form
/// body brings.
pub open spec fn outgoing_headers(supplied: Seq<TextPair>, body: BodyKind) -> Map<
    Seq<char>,
    Seq<char>,
> {
    let base = fold_headers(supplied);
    match body {
        BodyKind::Json => base.insert(content_type_name(), json_content_type()),
        BodyKind::Form => base.insert(content_type_name(), form_content_type()),
        _ => base,
    }
}

proof fn lemma_content_type_name()
    ensures
        ascii_lower("Content-Type"@) == content_type_name(),
{
    reveal_strlit("Content-Type");
    reveal_strlit("content-type");
}

/// Builds the header set of the outgoing request.
pub fn build_headers(supplied: &Vec<(String, String)>, body: BodyKind) -> (headers: HeaderMap)
    ensures
        headers@ == outgoing_headers(pairs_view(supplied@), body),
{
    let mut headers = HeaderMap::from_pairs(supplied);
    proof {
        lemma_content_type_name();
    }
    match body {
        BodyKind::Json => headers.insert("Content-Type", "application/json"),
        BodyKind::Form => headers.insert("Content-Type", "application/x-www-form-urlencoded"),
        _ => {},
    }
    headers
}

/// A request as the caller describes it.
#[derive(Debug)]
pub struct RequestSpec {
    /// The method, in any case.
    pub method: String,
    /// The URL as given.
    pub url: String,
    /// Query parameters in the order in which they are to be appended.
    pub params: Option<Vec<(String, String)>>,
    /// Headers in the order in which they were written.
    pub headers: Option<Vec<(String, String)>>,
    /// The generic body value.
    pub data: Option<DataValue>,
    /// The encoded JSON payload.
    pub json: Option<String>,
    /// The timeout of this call.
    pub timeout: Option<Timeout>,
    /// Whether redirects are followed.
    pub allow_redirects: Option<bool>,
    /// Whether certificates are verified. It is carried and has no effect.
    pub verify: Option<bool>,
}

/// A [`RequestSpec`] as mathematical values.
pub struct RequestView {
    pub method: Seq<char>,
    pub url: Seq<char>,
    pub params: Option<Seq<TextPair>>,
    pub headers: Option<Seq<TextPair>>,
    pub data: Option<DataView>,
    pub json: Option<Seq<char>>,
    pub timeout: Option<Timeout>,
    pub allow_redirects: Option<bool>,
    pub verify: Option<bool>,
}

impl View for RequestSpec {
    type V = RequestView;

    open spec fn view(&self) -> RequestView {
        RequestView {
            method: self.method@,
            url: self.url@,
            params: match self.params {
                Some(p) => Some(pairs_view(p@)),
                None => None,
            },
            headers: match self.headers {
                Some(h) => Some(pairs_view(h@)),
                None => None,
            },
            data: match self.data {
                Some(d) => Some(d@),
                None => None,
            },
            json: match self.json {
                Some(j) => Some(j@),
                None => None,
            },
            timeout: self.timeout,
            allow_redirects: self.allow_redirects,
            verify: self.verify,
        }
    }
}

impl RequestSpec {
    /// A request with a method and a URL and nothing else.
    pub fn new(method: &str, url: &str) -> (spec: RequestSpec)
        ensures
            spec@ == (RequestView {
                method: method@,
                url: url@,
                params: None,
                headers: None,
                data: None,
                json: None,
                timeout: None,
                allow_redirects: None,
                verify: None,
            }),
    {
        RequestSpec {
            method: String::from_str(method),
            url: String::from_str(url),
            params: None,
            headers: None,
            data: None,
            json: None,
            timeout: None,
            allow_redirects: None,
            verify: None,
        }
    }

    /// The same request with these query parameters.
    pub fn with_params(self, params: Vec<(String, String)>) -> (spec: RequestSpec)
        ensures
            spec@ == (RequestView { params: Some(pairs_view(params@)), ..self@ }),
    {
        RequestSpec { params: Some(params), ..self }
    }

    /// The same request with these headers.
    pub fn with_headers(self, headers: Vec<(String, String)>) -> (spec: RequestSpec)
        ensures
            spec@ == (RequestView { headers: Some(pairs_view(headers@)), ..self@ }),
    {
        RequestSpec { headers: Some(headers), ..self }
    }

    /// The same request with this data value.
    pub fn with_data(self, data: DataValue) -> (spec: RequestSpec)
        ensures
            spec@ == (RequestView { data: Some(data@), ..self@ }),
    {
        RequestSpec { data: Some(data), ..self }
    }

    /// The same request with this encoded JSON payload.
    pub fn with_json(self, json: String) -> (spec: RequestSpec)
        ensures
            spec@ == (RequestView { json: Some(json@), ..self@ }),
    {
        RequestSpec { json: Some(json), ..self }
    }

    /// The same request with this timeout.
    pub fn with_timeout(self, timeout: Timeout) -> (spec: RequestSpec)
        ensures
            spec@ == (RequestView { timeout: Some(timeout), ..self@ }),
    {
        RequestSpec { timeout: Some(timeout), ..self }
    }

    /// The same request with the redirect flag set.
    pub fn with_allow_redirects(self, allow: bool) -> (spec: RequestSpec)
        ensures
            spec@ == (RequestView { allow_redirects: Some(allow), ..self@ }),
    {
        RequestSpec { allow_redirects: Some(allow), ..self }
    }

    /// The same request with the verification flag set.
    pub fn with_verify(self, verify: bool) -> (spec: RequestSpec)
        ensures
            spec@ == (RequestView { verify: Some(verify), ..self@ }),
    {
        RequestSpec { verify: Some(verify), ..self }
    }
}

/// The one outgoing transaction: what is handed to the transport.
#[derive(Debug)]
pub struct PreparedRequest {
    /// The validated, upper-cased method.
    pub method: Method,
    /// The URL as given; the transport appends the query to it.
    pub url: String,
    /// The query pairs, in order; `None` where the caller gave no parameters.
    pub query: Option<Vec<(String, String)>>,
    /// The header set.
    pub headers: HeaderMap,
    /// The body.
    pub body: Body,
    /// The timeout of this call; `None` leaves the client's own in force.
    pub timeout: Option<Timeout>,
    /// The client that carries the request.
    pub client: ClientChoice,
}

/// A [`PreparedRequest`] as mathematical values.
pub struct PreparedView {
    pub method: Seq<char>,
    pub url: Seq<char>,
    pub query: Option<Seq<TextPair>>,
    pub headers: Map<Seq<char>, Seq<char>>,
    pub body: BodyView,
    pub timeout: Option<Timeout>,
    pub client: ClientChoice,
}

impl View for PreparedRequest {
    type V = PreparedView;

    open spec fn view(&self) -> PreparedView {
        PreparedView {
            method: self.method@,
            url: self.url@,
            query: match self.query {
                Some(q) => Some(pairs_view(q@)),
                None => None,
            },
            headers: self.headers@,
            body: self.body@,
            timeout: self.timeout,
            client: self.client,
        }
    }
}

/// The outgoing transaction of a request whose method is accepted.
pub open spec fn normalized(spec: RequestView) -> PreparedView {
    let body = chosen_body(spec.json, spec.data);
    PreparedView {
        method: upper_form(spec.method),
        url: spec.url,
        query: spec.params,
        headers: outgoing_headers(
            match spec.headers {
                Some(h) => h,
                None => Seq::empty(),
            },
            body.kind(),
        ),
        body,
        timeout: spec.timeout,
        client: client_for(spec.allow_redirects),
    }
}

/// Normalizes a request: the method is upper-cased and checked, the query
/// pairs keep their order, the headers are folded and given the content type
/// of the body, the body is chosen, and the redirect flag picks the client.
/// The only failure is a method that is refused.
pub fn normalize(spec: RequestSpec) -> (r: Result<PreparedRequest, ErrorValue>)
    ensures
        match r {
            Ok(p) => is_method_token(upper_form(spec@.method)) && p@ == normalized(spec@),
            Err(e) => !is_method_token(upper_form(spec@.method)) && e@
                == invalid_method_error(),
        },
{
    let RequestSpec { method, url, params, headers, data, json, timeout, allow_redirects, verify: _ } =
        spec;
    let method = match Method::parse(method.as_str()) {
        Ok(m) => m,
        Err(e) => {
            return Err(e);
        },
    };
    let body = select_body(json, data);
    let headers = match headers {
        Some(supplied) => build_headers(&supplied, body.kind()),
        None => build_headers(&Vec::new(), body.kind()),
    };
    Ok(
        PreparedRequest {
            method,
            url,
            query: params,
            headers,
            body,
            timeout,
            client: select_client(allow_redirects),
        },
    )
}

/// The most bytes of a URL text that is joined with a query.
pub const MAX_URL_BYTES: usize = 16_777_216;

/// The most pairs that are joined to a URL.
pub const MAX_QUERY_PAIRS: usize = 16_777_216;

/// The most bytes that the names and values of a query hold together.
pub const MAX_QUERY_BYTES: usize = 268_435_456;

/// The bytes that the names and values of the pairs hold together, in UTF-8.
pub open spec fn pairs_bytes(pairs: Seq<TextPair>) -> nat
    decreases pairs.len(),
{
    if pairs.len() == 0 {
        0
    } else {
        pairs_bytes(pairs.drop_last()) + encode_utf8(pairs.last().0).len() + encode_utf8(
            pairs.last().1,
        ).len()
    }
}

/// Whether a URL text and a list of pairs are small enough to be joined. The
/// transport's URL type counts positions in 32 bits; within these limits the
/// joined text stays far below that, however much of it is escaped.
pub open spec fn joinable(url: Seq<char>, pairs: Seq<TextPair>) -> bool {
    &&& encode_utf8(url).len() <= MAX_URL_BYTES
    &&& pairs.len() <= MAX_QUERY_PAIRS
    &&& pairs_bytes(pairs) <= MAX_QUERY_BYTES
}

/// What is said of a URL and a query that are too large to be joined.
pub open spec fn too_long_text() -> Seq<char> {
    "URL and query are too long to be joined"@
}

/// What the transport's URL type makes of a URL text with these pairs
/// appended to its query: the new URL text, or why the text is no URL.
pub uninterp spec fn url_with_query(url: Seq<char>, pairs: Seq<TextPair>) -> Result<
    Seq<char>,
    Seq<char>,
>;

/// `reqwest::Url::parse_with_params`: parses the text as an absolute URL
/// and appends each pair, in order, to its query. What comes back depends
/// on the text and the pairs alone. The URL type fails on a joined text
/// whose positions do not fit in 32 bits, so only what is joinable is handed
/// to it.
#[verifier::external_body]
fn transport_url_with_query(url: &str, pairs: &Vec<(String, String)>) -> (r: Result<
    String,
    String,
>)
    requires
        joinable(url@, pairs_view(pairs@)),
    ensures
        match r {
            Ok(joined) => url_with_query(url@, pairs_view(pairs@)) == Ok::<Seq<char>, Seq<char>>(
                joined@,
            ),
            Err(detail) => url_with_query(url@, pairs_view(pairs@)) == Err::<
                Seq<char>,
                Seq<char>,
            >(detail@),
        },
{
    match reqwest::Url::parse_with_params(url, pairs) {
        Ok(joined) => Ok(String::from(joined)),
        Err(e) => Err(e.to_string()),
    }
}

/// The URL that is requested: the text as given where there is nothing to
/// append; else the URL with the pairs appended to its query, where the two
/// are small enough to be joined and the text is a URL.
pub open spec fn target_of(url: Seq<char>, query: Option<Seq<TextPair>>) -> Result<
    Seq<char>,
    ErrorView,
> {
    match query {
        Some(pairs) => if pairs.len() == 0 {
            Ok(url)
        } else if !joinable(url, pairs) {
            Err(unbuildable(too_long_text()))
        } else {
            match url_with_query(url, pairs) {
                Ok(joined) => Ok(joined),
                Err(detail) => Err(unbuildable(detail)),
            }
        },
        None => Ok(url),
    }
}

proof fn lemma_pairs_bytes_grow(pairs: Seq<TextPair>, n: int)
    requires
        0 <= n <= pairs.len(),
    ensures
        pairs_bytes(pairs.take(n)) <= pairs_bytes(pairs),
    decreases pairs.len(),
{
    if n == pairs.len() {
        assert(pairs.take(n) =~= pairs);
    } else {
        assert(pairs.drop_last().take(n) =~= pairs.take(n));
        lemma_pairs_bytes_grow(pairs.drop_last(), n);
    }
}

/// Whether a URL text and a list of pairs are small enough to be joined.
pub fn is_joinable(url: &str, pairs: &Vec<(String, String)>) -> (ok: bool)
    ensures
        ok == joinable(url@, pairs_view(pairs@)),
{
    if url.as_bytes().len() > MAX_URL_BYTES || pairs.len() > MAX_QUERY_PAIRS {
        return false;
    }
    let ghost all = pairs_view(pairs@);
    let mut total: usize = 0;
    let mut i: usize = 0;
    while i < pairs.len()
        invariant
            i <= pairs@.len(),
            all == pairs_view(pairs@),
            total == pairs_bytes(all.take(i as int)),
            total <= MAX_QUERY_BYTES,
        decreases pairs@.len() - i,
    {
        let name_bytes = pairs[i].0.as_str().as_bytes().len();
        let value_bytes = pairs[i].1.as_str().as_bytes().len();
        proof {
            assert(all.take(i + 1).drop_last() =~= all.take(i as int));
            lemma_pairs_bytes_grow(all, i + 1);
        }
        if name_bytes > MAX_QUERY_BYTES - total || value_bytes > MAX_QUERY_BYTES - total
            - name_bytes {
            return false;
        }
        total = total + name_bytes + value_bytes;
        i += 1;
    }
    assert(all.take(i as int) =~= all);
    true
}

/// Computes the requested URL from a URL text and the query pairs.
pub fn join_query(url: &str, query: &Option<Vec<(String, String)>>) -> (r: Result<
    String,
    ErrorValue,
>)
    ensures
        text_result_view(r) == target_of(
            url@,
            match query {
                Some(q) => Some(pairs_view(q@)),
                None => None,
            },
        ),
{
    match query {
        Some(pairs) => {
            if pairs.len() == 0 {
                Ok(String::from_str(url))
            } else if !is_joinable(url, pairs) {
                Err(unbuildable_error(String::from_str("URL and query are too long to be joined")))
            } else {
                match transport_url_with_query(url, pairs) {
                    Ok(joined) => Ok(joined),
                    Err(detail) => Err(unbuildable_error(detail)),
                }
            }
        },
        None => Ok(String::from_str(url)),
    }
}

impl PreparedRequest {
    /// The URL that is requested, with the query in place.
    pub fn target_url(&self) -> (r: Result<String, ErrorValue>)
        ensures
            text_result_view(r) == target_of(self@.url, self@.query),
    {
        join_query(self.url.as_str(), &self.query)
    }

    /// The bytes that are sent as the body.
    pub fn body_bytes(&self) -> (r: Result<Option<Vec<u8>>, ErrorValue>)
        ensures
            payload_result_view(r) == payload_of(self@.body),
    {
        self.body.payload()
    }
}

/// The redirect flag picks the client and changes nothing else of the
/// outgoing transaction.
pub proof fn lemma_redirect_flag_only_picks_client(spec: RequestView, flag: Option<bool>)
    ensures
        normalized(RequestView { allow_redirects: flag, ..spec }) == (PreparedView {
            client: client_for(flag),
            ..normalized(spec)
        }),
{
}

/// The verification flag changes nothing of the outgoing transaction.
pub proof fn lemma_verify_flag_has_no_effect(spec: RequestView, flag: Option<bool>)
    ensures
        normalized(RequestView { verify: flag, ..spec }) == normalized(spec),
{
}

/// A JSON payload fixes the body and the content type, whatever the data
/// value and the caller's headers are.
pub proof fn lemma_json_takes_precedence(spec: RequestView, payload: Seq<char>)
    requires
        spec.json == Some(payload),
    ensures
        normalized(spec).body == BodyView::Json(payload),
        normalized(spec).headers.contains_key(content_type_name()),
        normalized(spec).headers[content_type_name()] == json_content_type(),
{
}

/// Without a JSON payload a form is sent as a form, under the form content
/// type.
pub proof fn lemma_form_content_type(spec: RequestView, pairs: Seq<TextPair>)
    requires
        spec.json is None,
        spec.data == Some(DataView::Form(pairs)),
    ensures
        normalized(spec).body == BodyView::Form(pairs),
        normalized(spec).headers.contains_key(content_type_name()),
        normalized(spec).headers[content_type_name()] == form_content_type(),
        form_content_type() != json_content_type(),
{
    reveal_strlit("application/json");
    reveal_strlit("application/x-www-form-urlencoded");
    assert(form_content_type().len() != json_content_type().len());
}

} // verus!
