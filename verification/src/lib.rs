//! A transport-agnostic request/response dispatch layer.
//!
//! An [`endpoint::Endpoint`] knows how to build one request and how to
//! interpret its response; a [`client::Client`] is the transport that
//! physically sends a request and hands a response back. The driver
//! [`client::respond_endpoint`] pushes an endpoint through exactly one round
//! trip, and [`retry::respond_endpoint_until_done`] pushes an
//! [`endpoint::RetryableEndpoint`] through a bounded retry loop with backoff
//! over a [`retry::RetryableClient`]. Pre- and post-request callbacks can
//! rewrite or observe the traffic on the way.
//!
//! Every driver carries a contract that pins its result, its callback calls
//! and its sleeps to a spec-level model of the loop; the laws of that model
//! (retry counts start at 1, the ceiling trips without a final sleep, a
//! transport failure is fatal at once) are proved in [`retry`].

pub mod callback;
pub mod client;
pub mod endpoint;
pub mod httpbin;
pub mod json;
pub mod message;
pub mod retry;
pub mod testing;
