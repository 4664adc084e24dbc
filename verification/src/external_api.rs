//! Declarations and thin wrappers for the two outside collaborators: the
//! tera templating engine and the serde_json serialization contract.
//!
//! Everything in this module is trusted: Verus believes the contracts stated
//! here without reading the outside code. Each item names the outside
//! function it relies on.

use vstd::prelude::*;

verus! {

#[verifier::external_type_specification]
#[verifier::external_body]
pub struct ExTera(tera::Tera);

#[verifier::external_type_specification]
#[verifier::external_body]
pub struct ExTeraContext(tera::Context);

#[verifier::external_type_specification]
#[verifier::external_body]
pub struct ExTeraError(tera::Error);

#[verifier::external_type_specification]
#[verifier::external_body]
pub struct ExJsonValue(serde_json::Value);

#[verifier::external_type_specification]
#[verifier::external_body]
pub struct ExJsonError(serde_json::Error);

/// Relies on the derived Clone implementation of tera::Context: a clone
/// equals the original, binding for binding.
pub assume_specification[ <tera::Context as Clone>::clone ](context: &tera::Context) -> (result:
    tera::Context)
    ensures
        result == *context,
;

/// Relies on the derived Clone implementation of serde_json::Value: a clone
/// equals the original tree value.
pub assume_specification[ <serde_json::Value as Clone>::clone ](value: &serde_json::Value) -> (result:
    serde_json::Value)
    ensures
        result == *value,
;

/// Relies on serde_json::to_value: converts any serializable value into the
/// generic tree value, or reports why the value cannot be serialized. The
/// result depends on the value's Serialize implementation, so nothing more
/// is assumed of it here.
pub assume_specification<T>[ serde_json::to_value::<T> ](value: T) -> Result<
    serde_json::Value,
    serde_json::Error,
>
    where
        T: serde::Serialize,
;

/// Relies on tera::Tera::render: renders the named template against the
/// given variable bindings, returning the rendered text or a template-level
/// error (unknown template, syntax or rendering failure). Which of the two
/// comes back is the engine's decision, so nothing is assumed of it here.
#[verifier::external_body]
pub(crate) fn render_with_context(
    engine: &tera::Tera,
    name: &str,
    context: &tera::Context,
) -> Result<String, tera::Error> {
    engine.render(name, context)
}

/// Relies on tera::Context::from_serialize: turns a tree value whose top
/// level is a map into the engine's variable bindings, and fails on any
/// other top-level shape. The shape of the opaque value cannot be seen from
/// here, so nothing is assumed of the outcome.
#[verifier::external_body]
pub(crate) fn context_from_serialized(
    value: &serde_json::Value,
) -> Result<tera::Context, tera::Error> {
    tera::Context::from_serialize(value)
}

/// Relies on the Display implementation of tera::Error for a human-readable
/// account of a rendering failure.
#[verifier::external_body]
pub(crate) fn render_error_text(error: &tera::Error) -> String {
    format!("{}", error)
}

/// Relies on the Display implementation of serde_json::Error for a
/// human-readable account of a serialization failure.
#[verifier::external_body]
pub(crate) fn serialize_error_text(error: &serde_json::Error) -> String {
    format!("{}", error)
}

} // verus!
