//! Request/response correlation.
//!
//! A mutating broker call only confirms that the request was accepted; its
//! outcome arrives later as a completion event scoped to the request handle
//! that the call returned. The transport layer subscribes to that
//! handle-scoped stream before anything could be missed, waits for exactly
//! one event, and feeds what it saw — one event, or the end of the stream —
//! into [`resolve_completion`].

use vstd::prelude::*;
use crate::error::StepCause;
use crate::value::DictEntry;

verus! {

/// One completion event: a status code and named result values, verbatim.
#[derive(Debug, PartialEq)]
pub struct CompletionEvent {
    /// The broker's status code; zero reports success.
    pub status: u32,
    /// The named results of the completed request.
    pub results: Vec<DictEntry>,
}

/// An ephemeral correlation record: the handle a request was accepted under
/// and the token the request was built with, kept for diagnostics. It is
/// consumed by exactly one completion event and never outlives its step.
#[derive(Debug, PartialEq)]
pub struct PendingRequest {
    /// The opaque handle the broker returned when it accepted the request.
    pub handle: String,
    /// The token the request carried.
    pub token: String,
}

impl PendingRequest {
    /// Record an accepted request.
    pub fn new(handle: String, token: String) -> (r: Self)
        ensures
            r.handle@ == handle@,
            r.token@ == token@,
    {
        PendingRequest { handle, token }
    }
}

/// Resolve what the handle-scoped event stream produced: the single event,
/// verbatim, or a transport-closed failure if the stream ended without one.
/// The failure is fatal to the whole handshake and is never retried.
pub fn resolve_completion(event: Option<CompletionEvent>) -> (r: Result<
    CompletionEvent,
    StepCause,
>)
    ensures
        match event {
            Some(e) => r matches Ok(ev) && ev == e,
            None => r matches Err(c) && c is TransportClosed,
        },
{
    match event {
        Some(e) => Ok(e),
        None => Err(StepCause::TransportClosed),
    }
}

} // verus!
