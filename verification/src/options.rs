//! Construction of the request-options value that is handed to the
//! transport.
//!
//! The options value is ephemeral: it is built fresh for each call and
//! consumed immediately by the boundary that serializes it into the actual
//! request. The one normalization rule lives here: a GET request never
//! carries a body, whatever the caller supplied.

use vstd::prelude::*;
use crate::method::FetchMethod;

verus! {

/// Options to configure a HTTP request.
#[derive(Debug)]
pub struct RequestOptions {
    /// Request method token, e.g. "GET".
    pub method: String,
    /// Body sent in the request, if any.
    pub body: Option<String>,
    /// Request headers, passed through verbatim: no case-folding, no
    /// validation, no reordering.
    pub headers: Vec<(String, String)>,
}

impl RequestOptions {
    /// The body as a mathematical value: present or absent, by content.
    pub open spec fn body_view(self) -> Option<Seq<char>> {
        match self.body {
            Option::Some(b) => Option::Some(b@),
            Option::None => Option::None,
        }
    }
}

/// The body that is actually transmitted for a request: none for GET,
/// exactly the caller's body for every other method.
pub open spec fn effective_body(method: FetchMethod, body: Seq<char>) -> Option<Seq<char>> {
    match method {
        FetchMethod::Get => Option::None,
        _ => Option::Some(body),
    }
}

/// Assemble the options value for one request.
///
/// A GET request must never carry a body, so the supplied body is silently
/// discarded for GET; for POST and PUT it is carried exactly as given.
/// Headers are passed through verbatim.
pub fn build_request_options(
    method: FetchMethod,
    body: &str,
    headers: Vec<(String, String)>,
) -> (opts: RequestOptions)
    ensures
        opts.method@ == method.token(),
        opts.body_view() == effective_body(method, body@),
        method is Get ==> opts.body is None,
        !(method is Get) ==> opts.body_view() == Option::Some(body@),
        opts.headers@ == headers@,
{
    let effective: Option<String> = match method {
        FetchMethod::Get => None,
        _ => Some(body.to_owned()),
    };
    RequestOptions {
        method: method.as_str().to_owned(),
        body: effective,
        headers,
    }
}

} // verus!
