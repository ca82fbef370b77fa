//! The rules of a credential-flow transport: how the token requests of the
//! Azure SDK are turned into requests of the gateway's policy-aware client.
//!
//! - [`client`]: the policies for an endpoint, and the preparation of a request.
//! - [`policy`]: backend traffic policies, and the budget of a token fetch.
//! - [`endpoint`] and [`net`]: request URLs, destinations, and which of them are
//!   on this host.
//! - [`method`], [`request`] and [`headers`]: heads of requests and headers of
//!   responses.
//! - [`laws`]: what holds of all of these together.

pub mod client;
pub mod endpoint;
pub mod error;
pub mod headers;
pub mod laws;
pub mod method;
pub mod net;
pub mod policy;
pub mod request;
pub mod text;
pub mod time;
