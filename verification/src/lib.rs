//! Request-execution logic for an HTTP helper built on a host-provided
//! `fetch` capability.
//!
//! The verified core covers everything that can be decided without touching
//! the network: building the request options (method token, effective body,
//! verbatim headers) and choosing what to do once the transport or the body
//! extraction settles. The asynchronous plumbing that actually performs the
//! exchange lives outside the library and feeds settlement events back in.

mod flow;
mod method;
mod options;

pub use flow::FetchError;
pub use flow::FetchStep;
pub use flow::FetchValue;
pub use flow::TransportDecision;
pub use flow::TransportEvent;
pub use flow::contains_substring;
pub use flow::lemma_transport_message_contains_detail;
pub use flow::on_body_settled;
pub use flow::on_transport_settled;
pub use flow::transport_error_message;
pub use flow::transport_error_text;
pub use method::FetchMethod;
pub use method::lemma_method_token_canonical;
pub use options::RequestOptions;
pub use options::build_request_options;
pub use options::effective_body;
