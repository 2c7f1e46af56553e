//! A verified client core for a REST-style API.
//!
//! Every API operation is described by a small value, an endpoint
//! descriptor, that knows its HTTP method, its path relative to the API
//! root, its optional body payload, and the shape of the response it
//! expects.  A request builder turns a descriptor into a transport-ready
//! request value, and an API client executes that request through a
//! caller-supplied transport and interprets the raw response into a typed
//! result.  The wire codec, the builder, and the response interpretation
//! are all verified; the transport itself is a capability the caller
//! brings.

pub mod client;
pub mod endpoint;
pub mod json;
pub mod oauth;
pub mod request;
pub mod teams;
