//! The decision core of the request executor.
//!
//! A call proceeds in two chained asynchronous stages: the transport
//! operation settles first, and — only when a body is wanted — the
//! body-extraction operation settles second. The surrounding runtime
//! performs the awaiting and hands each settlement back in as an event;
//! everything the executor decides about an event is in this module, so a
//! failure in stage one provably short-circuits stage two.

use vstd::prelude::*;
use vstd::string::StringExecFns;

verus! {

/// How the awaited transport operation settled: with a response handle, or
/// with a rejection whose failure detail has been rendered to text.
#[derive(Debug, PartialEq, Eq)]
pub enum TransportEvent<R> {
    Fulfilled(R),
    Rejected(String),
}

/// A successful call's payload: the explicit "no value" marker used in
/// empty-response mode, or the parsed response body.
#[derive(Debug, PartialEq, Eq)]
pub enum FetchValue<V> {
    Empty,
    Parsed(V),
}

/// Why a call failed.
#[derive(Debug, PartialEq, Eq)]
pub enum FetchError<E> {
    /// The underlying request could not be completed; carries the
    /// human-readable message embedding the transport's failure detail.
    Transport(String),
    /// The response body could not be decoded; carries the underlying
    /// failure unmodified.
    Parse(E),
}

/// What to do next once the transport has settled.
#[derive(Debug, PartialEq, Eq)]
pub enum FetchStep<R, V, E> {
    /// The call is over with this result; the response body is never read.
    Done(Result<FetchValue<V>, FetchError<E>>),
    /// Read the response body as parsed structured data, then finish the
    /// call with `on_body_settled`.
    ReadBody(R),
}

/// The executor's reaction to the transport settling: the diagnostic lines
/// to emit, in order, and the next step of the call.
#[derive(Debug, PartialEq, Eq)]
pub struct TransportDecision<R, V, E> {
    pub log: Vec<String>,
    pub step: FetchStep<R, V, E>,
}

/// The message reported when the transport rejects with the given detail.
pub open spec fn transport_error_text(detail: Seq<char>) -> Seq<char> {
    "Error executing fetch request "@ + detail
}

/// Render the transport-failure message for a failure detail.
pub fn transport_error_message(detail: &str) -> (msg: String)
    ensures
        msg@ == transport_error_text(detail@),
{
    String::from_str("Error executing fetch request ").concat(detail)
}

/// `needle` occurs contiguously somewhere inside `hay`.
pub open spec fn contains_substring(hay: Seq<char>, needle: Seq<char>) -> bool {
    exists|i: int|
        0 <= i && i + needle.len() <= hay.len() && #[trigger] hay.subrange(
            i,
            i + needle.len() as int,
        ) == needle
}

/// The transport-failure message always contains the failure detail itself
/// as a substring.
pub proof fn lemma_transport_message_contains_detail(detail: Seq<char>)
    ensures
        contains_substring(transport_error_text(detail), detail),
{
    let text = transport_error_text(detail);
    let i = "Error executing fetch request "@.len() as int;
    assert(text.subrange(i, i + detail.len() as int) =~= detail);
    assert(0 <= i && i + detail.len() <= text.len());
}

/// React to the settlement of the transport operation.
///
/// On rejection the call fails with a message embedding the failure detail,
/// and exactly one diagnostic entry — that same message — is produced. On
/// fulfillment no diagnostic is produced; in empty-response mode the call
/// succeeds immediately with the "no value" result, so the response body is
/// never touched, and otherwise the body is to be read as parsed structured
/// data.
pub fn on_transport_settled<R, V, E>(
    event: TransportEvent<R>,
    empty_response: bool,
) -> (d: TransportDecision<R, V, E>)
    ensures
        (event matches TransportEvent::Rejected(detail) ==> {
            &&& d.log@.len() == 1
            &&& d.log@[0]@ == transport_error_text(detail@)
            &&& (d.step matches FetchStep::Done(Err(FetchError::Transport(msg)))
                && msg@ == transport_error_text(detail@))
        }),
        (event matches TransportEvent::Fulfilled(resp) ==> {
            &&& d.log@.len() == 0
            &&& (empty_response ==> (d.step matches FetchStep::Done(Ok(v)) && v is Empty))
            &&& (!empty_response ==> (d.step matches FetchStep::ReadBody(handle) && handle
                == resp))
        }),
{
    match event {
        TransportEvent::Rejected(detail) => {
            let msg = transport_error_message(detail.as_str());
            let mut log: Vec<String> = Vec::new();
            log.push(msg.clone());
            TransportDecision {
                log,
                step: FetchStep::Done(Err(FetchError::Transport(msg))),
            }
        },
        TransportEvent::Fulfilled(resp) => {
            let step = if empty_response {
                FetchStep::Done(Ok(FetchValue::Empty))
            } else {
                FetchStep::ReadBody(resp)
            };
            TransportDecision { log: Vec::new(), step }
        },
    }
}

/// Finish the call after the body-extraction stage settled.
///
/// A successfully parsed body becomes the call's value; a body-extraction
/// failure propagates as the failure of the whole call, unmodified and
/// without any diagnostic.
pub fn on_body_settled<V, E>(event: Result<V, E>) -> (r: Result<FetchValue<V>, FetchError<E>>)
    ensures
        (event matches Ok(v) ==> (r matches Ok(FetchValue::Parsed(w)) && w == v)),
        (event matches Err(e) ==> (r matches Err(FetchError::Parse(f)) && f == e)),
{
    match event {
        Ok(v) => Ok(FetchValue::Parsed(v)),
        Err(e) => Err(FetchError::Parse(e)),
    }
}

} // verus!
