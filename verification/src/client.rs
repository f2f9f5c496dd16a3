//! The client as the rules see it: the configuration it was built with, the
//! preparation of a request before the transport is asked, and what is made
//! of the transport's answer.

use crate::config::{create_client_with_redirects, standard_config, ClientConfig};
use crate::error::{
    classified, classify_transport_failure, construction_message, ErrorKind, ErrorValue,
    ErrorView, TransportFailure,
};
use crate::headers::fold_headers;
use crate::method::{invalid_method_error, is_method_token};
use crate::request::{normalize, normalized, PreparedRequest, RequestSpec};
use crate::response::{buffered, raw_headers_view, RawHeader, Response, ResponseView};
use crate::text::upper_form;
use bytes::Bytes;
use vstd::prelude::*;
use vstd::string::*;

verus! {

/// A client over a connection pool. The configuration is fixed when the
/// client is made.
#[derive(Clone, Copy, Debug)]
pub struct Client {
    config: ClientConfig,
}

impl View for Client {
    type V = ClientConfig;

    closed spec fn view(&self) -> ClientConfig {
        self.config
    }
}

/// What the transport hands back for one request.
#[derive(Debug)]
pub enum TransportOutcome {
    /// A response was received. The body is `None` where it could not be
    /// read to its end.
    Received { status_code: u16, url: String, headers: Vec<RawHeader>, body: Option<Bytes> },
    /// The request failed in the transport.
    Failed(TransportFailure),
    /// The dedicated client could not be built; the transport was not asked.
    NotBuilt(String),
}

/// What the caller gets for each outcome of the transport.
pub open spec fn received(outcome: TransportOutcome) -> Result<ResponseView, ErrorView> {
    match outcome {
        TransportOutcome::Received { status_code, url, headers, body } => Ok(
            ResponseView {
                status_code,
                url: url@,
                headers: fold_headers(raw_headers_view(headers@)),
                body: match body {
                    Some(b) => Some(buffered(b)),
                    None => None,
                },
            },
        ),
        TransportOutcome::Failed(failure) => Err(
            classified(failure.timed_out, failure.connect, failure.redirect, failure.detail@),
        ),
        TransportOutcome::NotBuilt(detail) => Err(
            ErrorView {
                kind: ErrorKind::ConstructionError,
                message: construction_message(detail@),
                status: None,
            },
        ),
    }
}

/// The outcome of a whole request, as mathematical values.
pub open spec fn response_result_view(r: Result<Response, ErrorValue>) -> Result<
    ResponseView,
    ErrorView,
> {
    match r {
        Ok(response) => Ok(response@),
        Err(e) => Err(e@),
    }
}

impl Client {
    /// A pooled client that follows redirects.
    pub fn new() -> (client: Client)
        ensures
            client@ == standard_config(true),
    {
        Client { config: create_client_with_redirects(true) }
    }

    /// The configuration.
    pub fn config(&self) -> (config: ClientConfig)
        ensures
            config == self@,
    {
        self.config
    }

    /// Prepares a request for the transport. It fails exactly when the
    /// method is refused; nothing has been sent by then.
    pub fn request(&self, spec: RequestSpec) -> (r: Result<PreparedRequest, ErrorValue>)
        ensures
            match r {
                Ok(p) => is_method_token(upper_form(spec@.method)) && p@ == normalized(spec@),
                Err(e) => !is_method_token(upper_form(spec@.method)) && e@
                    == invalid_method_error(),
            },
    {
        normalize(spec)
    }

    /// Turns the transport's answer into the caller's: a response, or the
    /// failure classified. Nothing is retried.
    pub fn receive(&self, outcome: TransportOutcome) -> (r: Result<Response, ErrorValue>)
        ensures
            response_result_view(r) == received(outcome),
    {
        match outcome {
            TransportOutcome::Received { status_code, url, headers, body } => Ok(
                Response::new(status_code, url, &headers, body),
            ),
            TransportOutcome::Failed(failure) => Err(classify_transport_failure(&failure)),
            TransportOutcome::NotBuilt(detail) => Err(ErrorValue::construction(detail.as_str())),
        }
    }
}

/// Prepares a request for the shared default client.
pub fn request(spec: RequestSpec) -> (r: Result<PreparedRequest, ErrorValue>)
    ensures
        match r {
            Ok(p) => is_method_token(upper_form(spec@.method)) && p@ == normalized(spec@),
            Err(e) => !is_method_token(upper_form(spec@.method)) && e@ == invalid_method_error(),
        },
{
    Client::new().request(spec)
}

} // verus!
