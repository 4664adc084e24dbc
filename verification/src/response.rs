//! The per-request response model that the deferred renderer works on: the
//! fields of an outgoing response that the render hand-off reads or writes,
//! plus a single explicit slot for the attached render instruction.

use vstd::prelude::*;

use crate::template::Template;

verus! {

/// An in-flight response, as the deferred renderer sees it: an optional
/// status code, an optional explicit content-type header, an optional body,
/// and the instruction slot. The slot is the per-response keyed state a
/// handler fills through `Template::modify`; it holds at most one
/// instruction, owned by the response until the renderer takes it back.
pub struct Response {
    pub status: Option<u16>,
    pub content_type: Option<String>,
    pub body: Option<String>,
    pub slot: Option<Template>,
}

impl Response {
    /// A fresh response: no status, no headers, no body, no instruction.
    pub fn new() -> (result: Response)
        ensures
            result.status is None,
            result.content_type is None,
            result.body is None,
            result.slot is None,
    {
        Response { status: None, content_type: None, body: None, slot: None }
    }

    /// Peeks at the currently attached instruction without removing it: the
    /// inspection hook for later pipeline stages. It never mutates the
    /// response and never takes ownership; the actual render exclusively
    /// goes through the deferred renderer, which removes the instruction.
    pub fn eval(&self) -> (result: Option<&Template>)
        ensures
            result is Some <==> self.slot is Some,
            result matches Some(template) ==> self.slot == Some(*template),
    {
        self.slot.as_ref()
    }
}

/// A request-level error already carrying its own partial response, as the
/// pipeline's error-handling stage hands it to the deferred renderer.
pub struct PipelineError {
    pub response: Response,
}

} // verus!
