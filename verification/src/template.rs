//! The render instruction: the (template name, render data) pair a handler
//! builds and attaches to an outgoing response.

use vstd::prelude::*;

use crate::error::TemplateError;
use crate::mode::TemplateMode;
use crate::response::Response;

verus! {

/// A deferred-render instruction: render the template called `name` with
/// the payload `mode`. Immutable once built; owned by the handler until it
/// is attached to a response.
#[derive(Clone, Debug)]
pub struct Template {
    pub mode: TemplateMode,
    pub name: String,
}

impl Template {
    /// Pure constructor: no I/O and no check that the named template exists
    /// (existence is the engine's to decide, at render time).
    pub fn new(name: String, mode: TemplateMode) -> (result: Template)
        ensures
            result.name == name,
            result.mode == mode,
    {
        Template { name, mode }
    }

    /// Builds an instruction directly from a structured context, funnelling
    /// through `TemplateMode::from_context`. Never fails.
    pub fn from_context(name: String, context: tera::Context) -> (result: Template)
        ensures
            result.name == name,
            result.mode == TemplateMode::TeraContext(context),
    {
        Template::new(name, TemplateMode::from_context(context))
    }

    /// Builds an instruction directly from an arbitrary serializable value,
    /// funnelling through `TemplateMode::from_serial`: a serialization
    /// failure is returned to the caller, never swallowed.
    pub fn from_serial<S: serde::Serialize>(name: String, serializeable: S) -> (result: Result<
        Template,
        TemplateError,
    >)
        ensures
            result matches Ok(template) ==> template.name == name && template.mode is Serialized,
            result matches Err(error) ==> error is SerdeErr,
    {
        match TemplateMode::from_serial(serializeable) {
            Ok(mode) => Ok(Template::new(name, mode)),
            Err(error) => Err(error),
        }
    }

    /// Attaches this instruction to a response: stores it in the response's
    /// instruction slot and changes nothing else. Always valid, whatever the
    /// instruction holds; a previously attached instruction is replaced.
    pub fn modify(self, response: &mut Response)
        ensures
            final(response).slot == Some(self),
            final(response).status == old(response).status,
            final(response).content_type == old(response).content_type,
            final(response).body == old(response).body,
    {
        response.slot = Some(self);
    }
}

} // verus!
