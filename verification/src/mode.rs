//! The two ways a handler can hand render data to the engine: an explicit
//! variable-binding context, or a single pre-serialized tree value.

use vstd::prelude::*;

use crate::error::TemplateError;

verus! {

/// The render-data payload of an instruction: exactly one of two modes,
/// chosen at construction and immutable afterwards.
#[derive(Clone, Debug)]
pub enum TemplateMode {
    /// An explicit key-to-value binding context, built by the handler.
    TeraContext(tera::Context),
    /// A single opaque tree value produced by the serialization contract.
    Serialized(serde_json::Value),
}

impl TemplateMode {
    /// Wraps a structured context as render data. Never fails and keeps the
    /// context exactly as given.
    pub fn from_context(context: tera::Context) -> (result: TemplateMode)
        ensures
            result == TemplateMode::TeraContext(context),
    {
        TemplateMode::TeraContext(context)
    }

    /// Turns the outcome of the serialization contract into render data:
    /// a successfully serialized value is wrapped exactly as produced, and
    /// a serialization failure is surfaced as the corresponding error,
    /// never coerced into a default value.
    pub fn from_serial_outcome(outcome: Result<serde_json::Value, serde_json::Error>) -> (result:
        Result<TemplateMode, TemplateError>)
        ensures
            match outcome {
                Ok(value) => result == Ok::<TemplateMode, TemplateError>(
                    TemplateMode::Serialized(value),
                ),
                Err(error) => result == Err::<TemplateMode, TemplateError>(
                    TemplateError::SerdeErr(error),
                ),
            },
    {
        match outcome {
            Ok(value) => Ok(TemplateMode::Serialized(value)),
            Err(error) => Err(TemplateError::SerdeErr(error)),
        }
    }

    /// Applies the serialization contract to an arbitrary value and wraps
    /// the outcome through `from_serial_outcome`: the data holds whatever
    /// tree value serialization produced, and a failure is returned to the
    /// caller rather than swallowed.
    pub fn from_serial<S: serde::Serialize>(serializeable: S) -> (result: Result<
        TemplateMode,
        TemplateError,
    >)
        ensures
            result matches Ok(mode) ==> mode is Serialized,
            result matches Err(error) ==> error is SerdeErr,
    {
        TemplateMode::from_serial_outcome(serde_json::to_value(serializeable))
    }
}

impl From<tera::Context> for TemplateMode {
    fn from(context: tera::Context) -> (result: TemplateMode) {
        TemplateMode::from_context(context)
    }
}

impl vstd::std_specs::convert::FromSpecImpl<tera::Context> for TemplateMode {
    open spec fn obeys_from_spec() -> bool {
        true
    }

    open spec fn from_spec(context: tera::Context) -> TemplateMode {
        TemplateMode::TeraContext(context)
    }
}

} // verus!
