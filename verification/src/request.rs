//! Outbound call descriptors and the taxonomy of terminal request errors.

use vstd::prelude::*;

verus! {

/// The HTTP method of an outbound call.
#[derive(Clone, Copy, PartialEq, Eq, Structural, Debug)]
pub enum Method {
    Get,
    Post,
    Patch,
    Put,
    Delete,
}

/// An outbound call descriptor paired with the completion handle the caller
/// awaits. Created by the caller, enqueued under its route, exclusively
/// drained and completed by the scheduler; the caller never mutates it after
/// submission. `id` names the owned completion channel endpoint held by the
/// caller; `attempts` counts rate-limit or timeout rejections received so far.
pub struct PendingRequest {
    /// Completion handle: the id of the channel endpoint the caller awaits.
    pub id: u64,
    pub method: Method,
    /// The fully substituted request URI.
    pub uri: String,
    /// Request headers as name/value pairs.
    pub headers: Vec<(String, String)>,
    /// Request body, when the method carries one.
    pub body: Option<String>,
    /// Transient rejections (rate limit or timeout) received so far.
    pub attempts: u64,
}

/// Terminal outcomes surfaced to a request's completion handle.
#[derive(PartialEq, Eq, Structural, Debug)]
pub enum RequestError {
    /// The configured attempt ceiling was reached with every attempt
    /// rate-limit-rejected or timed out.
    RateLimitExhausted,
    /// A network fault; never retried internally.
    Network,
    /// A non-rate-limit protocol rejection, carrying the status code;
    /// never retried internally.
    Protocol { status: u16 },
    /// The scheduler was shut down before the request was dispatched.
    Cancelled,
}

} // verus!
