//! The routing and forwarding rules of a prefix-routed HTTP gateway.
//!
//! The crate decides; it performs no I/O. A caller feeds it what arrived on
//! the wire and carries out the action it answers with.
//!
//! - [`route`]: the ordered route table and first-match resolution.
//! - [`forward`]: the target URL and the headers of the outbound request.
//! - [`message`]: requests, responses and headers as plain values.
//! - [`gateway`]: the handling of one request, step by step.
//! - [`config`]: the standard routes and the defaults of the configuration.
//! - [`text`]: the operations on strings that the rules are built from.
//! - [`laws`]: what holds of the above on every input.

pub mod config;
pub mod forward;
pub mod gateway;
pub mod laws;
pub mod message;
pub mod route;
pub mod text;
