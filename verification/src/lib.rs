//! A synchronous HTTP client facade: the rules that turn a loosely typed
//! request description into one outgoing transaction, choose the client that
//! carries it, classify transport failures and expose the buffered response.
//!
//! The transport itself (connections, TLS, redirects) and the JSON codecs are
//! collaborators that live outside this crate; the functions here decide what
//! is handed to them and what is made of their answers.
//!
//! * [`request`] normalizes a [`request::RequestSpec`] into a
//!   [`request::PreparedRequest`]; [`method`], [`headers`] and [`body`] hold
//!   the rules for its parts, and [`config`] the rule that picks the client.
//! * [`client`] prepares a request and turns the transport's answer into a
//!   [`response::Response`] or a classified [`error::ErrorValue`].
//! * [`json`] orders the JSON codecs.

pub mod body;
pub mod client;
pub mod config;
pub mod error;
pub mod headers;
pub mod json;
pub mod method;
pub mod request;
pub mod response;
pub mod text;
