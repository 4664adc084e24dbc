//! The error taxonomy of the library: a serialization failure, reported when
//! render data is built from an arbitrary value, and a rendering failure,
//! reported when the engine cannot produce text for an instruction.

use vstd::prelude::*;

use crate::external_api;

verus! {

/// What can go wrong between building a render instruction and rendering it.
///
/// Neither kind is retried: both are terminal for the request that raised
/// them. A serialization failure is raised at construction time and is for
/// the caller to classify (commonly a bad-request condition when the data
/// came from untrusted input). A rendering failure is raised when the
/// deferred renderer runs and points at a template-authoring defect, so it
/// is best classified as an internal error.
#[derive(Debug)]
pub enum TemplateError {
    /// Converting an arbitrary value to the generic tree value failed.
    SerdeErr(serde_json::Error),
    /// The engine could not produce text for an otherwise valid instruction.
    RenderErr(tera::Error),
}

impl TemplateError {
    /// True exactly for a rendering failure, the kind best surfaced as an
    /// internal error; a serialization failure is the caller's to classify.
    pub fn is_render_failure(&self) -> (result: bool)
        ensures
            result == (self is RenderErr),
    {
        match self {
            TemplateError::SerdeErr(_) => false,
            TemplateError::RenderErr(_) => true,
        }
    }

    /// A human-readable account of the failure, carrying the underlying
    /// cause for logging and diagnostics.
    pub fn message(&self) -> String {
        match self {
            TemplateError::SerdeErr(error) => external_api::serialize_error_text(error),
            TemplateError::RenderErr(error) => external_api::render_error_text(error),
        }
    }
}

impl From<serde_json::Error> for TemplateError {
    fn from(error: serde_json::Error) -> (result: TemplateError) {
        TemplateError::SerdeErr(error)
    }
}

impl vstd::std_specs::convert::FromSpecImpl<serde_json::Error> for TemplateError {
    open spec fn obeys_from_spec() -> bool {
        true
    }

    open spec fn from_spec(error: serde_json::Error) -> TemplateError {
        TemplateError::SerdeErr(error)
    }
}

} // verus!
