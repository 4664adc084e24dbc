//! The deferred renderer: one shared, read-only engine handle plus the
//! post-processing hook that runs once per response, extracts the attached
//! instruction, renders it, and rewrites the response in place.

use vstd::prelude::*;

use crate::error::TemplateError;
use crate::external_api;
use crate::mode::TemplateMode;
use crate::response::PipelineError;
use crate::response::Response;

verus! {

/// The response a successful render leaves behind: the rendered text becomes
/// the body, the instruction slot is emptied, the status is untouched, and
/// the content type is defaulted only where the handler set none.
pub open spec fn render_applied(pre: Response, text: String, default_content_type: String) -> Response {
    Response {
        status: pre.status,
        content_type: if pre.content_type is Some {
            pre.content_type
        } else {
            Some(default_content_type)
        },
        body: Some(text),
        slot: None,
    }
}

/// Every way a response can pass the deferred renderer successfully: either
/// no instruction was attached and the response is untouched (`rendered` is
/// `None`), or an instruction was attached and the engine's text was applied
/// through `render_applied` (`rendered` holds that text).
pub open spec fn process_transition(
    pre: Response,
    post: Response,
    rendered: Option<String>,
    default_content_type: String,
) -> bool {
    match rendered {
        None => pre.slot is None && post == pre,
        Some(text) => pre.slot is Some && post == render_applied(pre, text, default_content_type),
    }
}

/// The error-path counterpart of `process_transition`: the renderer relates
/// the response embedded in the incoming error to the response embedded in
/// the re-raised error in exactly the way it relates a success-path response
/// to its processed form.
pub open spec fn catch_transition(
    pre: PipelineError,
    post: PipelineError,
    rendered: Option<String>,
    default_content_type: String,
) -> bool {
    process_transition(pre.response, post.response, rendered, default_content_type)
}

/// The deferred renderer's engine handle: a compiled template set, shared
/// read-only across all requests for the lifetime of the process, plus the
/// content type assumed for rendered output when the handler set none. The
/// default policy is HTML; the field is public so the policy is the
/// embedder's to configure, not a hardcoded assumption.
pub struct TeraEngine {
    pub tera: tera::Tera,
    pub default_content_type: String,
}

impl TeraEngine {
    /// Wraps an already compiled engine instance, with rendered output
    /// defaulting to the HTML content type. Compiling templates from their
    /// source location is the surrounding program's responsibility.
    pub fn new(tera: tera::Tera) -> (result: TeraEngine)
        ensures
            result.tera == tera,
            result.default_content_type@ == "text/html"@,
    {
        TeraEngine { tera, default_content_type: "text/html".to_owned() }
    }

    /// Dispatches on the render-data mode: a structured context is handed to
    /// the engine as it stands, while a serialized value is first turned
    /// into the engine's variable bindings. Both yield the engine's text or
    /// its error; this dispatch is the only difference between the modes.
    fn render_mode(&self, name: &str, mode: &TemplateMode) -> Result<String, tera::Error> {
        match mode {
            TemplateMode::TeraContext(context) => external_api::render_with_context(
                &self.tera,
                name,
                context,
            ),
            TemplateMode::Serialized(value) => match external_api::context_from_serialized(value) {
                Ok(context) => external_api::render_with_context(&self.tera, name, &context),
                Err(error) => Err(error),
            },
        }
    }

    /// Applies an engine outcome to a response: the exact, fully specified
    /// half of processing, verified for every value the engine can return.
    /// Success rewrites the response through `render_applied`; failure is
    /// surfaced as a rendering error and never as a partial or empty body.
    pub fn apply_render_outcome(&self, response: Response, outcome: Result<String, tera::Error>) -> (result:
        Result<Response, TemplateError>)
        ensures
            outcome matches Ok(text) ==> result == Ok::<Response, TemplateError>(
                render_applied(response, text, self.default_content_type),
            ),
            outcome matches Err(error) ==> result == Err::<Response, TemplateError>(
                TemplateError::RenderErr(error),
            ),
    {
        match outcome {
            Ok(text) => {
                let Response { status, content_type, body: _, slot: _ } = response;
                let content_type = match content_type {
                    Some(explicit) => Some(explicit),
                    None => Some(self.default_content_type.clone()),
                };
                Ok(Response { status, content_type, body: Some(text), slot: None })
            },
            Err(error) => Err(TemplateError::RenderErr(error)),
        }
    }

    /// The per-response post-processing hook, run once per response after
    /// handler logic. With no instruction attached it is a no-op returning
    /// the response unchanged. With one attached it removes it, renders it,
    /// and applies the outcome: on success the response passes through
    /// `render_applied`; on engine failure the rendering error is returned
    /// instead of a body.
    pub fn process(&self, response: Response) -> (result: Result<Response, TemplateError>)
        ensures
            response.slot is None ==> result == Ok::<Response, TemplateError>(response),
            result matches Ok(post) ==> exists|rendered: Option<String>|
                process_transition(response, post, rendered, self.default_content_type),
            result matches Err(error) ==> response.slot is Some && error is RenderErr,
    {
        let Response { status, content_type, body, slot } = response;
        match slot {
            None => {
                let unchanged = Response { status, content_type, body, slot: None };
                proof {
                    assert(unchanged == response);
                    assert(process_transition(
                        response,
                        unchanged,
                        None::<String>,
                        self.default_content_type,
                    ));
                }
                Ok(unchanged)
            },
            Some(template) => {
                let outcome = self.render_mode(template.name.as_str(), &template.mode);
                let ghost saved_outcome = outcome;
                let stripped = Response { status, content_type, body, slot: None };
                let result = self.apply_render_outcome(stripped, outcome);
                proof {
                    if saved_outcome is Ok {
                        let text = saved_outcome->Ok_0;
                        assert(render_applied(stripped, text, self.default_content_type)
                            == render_applied(response, text, self.default_content_type));
                        assert(process_transition(
                            response,
                            render_applied(response, text, self.default_content_type),
                            Some(text),
                            self.default_content_type,
                        ));
                    }
                }
                result
            },
        }
    }

    /// The error-path hook: the pipeline hands it a request-level error
    /// carrying a partial response, and the renderer runs the exact same
    /// processing against that response before the error is re-raised. A
    /// handler that attached an instruction to an error response therefore
    /// still gets it rendered; a rendering failure replaces the error, as on
    /// the success path.
    pub fn catch(&self, error: PipelineError) -> (result: Result<PipelineError, TemplateError>)
        ensures
            error.response.slot is None ==> result == Ok::<PipelineError, TemplateError>(error),
            result matches Ok(post) ==> exists|rendered: Option<String>|
                catch_transition(error, post, rendered, self.default_content_type),
            result matches Err(failure) ==> error.response.slot is Some && failure is RenderErr,
    {
        let PipelineError { response } = error;
        match self.process(response) {
            Ok(processed) => {
                let reraised = PipelineError { response: processed };
                proof {
                    assert(error.response.slot is None ==> reraised == error);
                    let rendered = choose|rendered: Option<String>|
                        process_transition(
                            error.response,
                            processed,
                            rendered,
                            self.default_content_type,
                        );
                    assert(catch_transition(error, reraised, rendered, self.default_content_type));
                }
                Ok(reraised)
            },
            Err(failure) => Err(failure),
        }
    }
}

/// Law: a response with no instruction attached passes the renderer
/// unmodified, whatever else it holds.
pub proof fn lemma_no_instruction_no_op(
    pre: Response,
    post: Response,
    rendered: Option<String>,
    default_content_type: String,
)
    requires
        process_transition(pre, post, rendered, default_content_type),
        pre.slot is None,
    ensures
        post == pre,
{
}

/// Law: processing is idempotent once the instruction is consumed. Any
/// successfully processed response has an empty slot, and processing it
/// again can only be the no-op transition that returns it unchanged.
pub proof fn lemma_process_idempotent_once(
    pre: Response,
    post: Response,
    rendered: Option<String>,
    default_content_type: String,
)
    requires
        process_transition(pre, post, rendered, default_content_type),
    ensures
        post.slot is None,
        process_transition(post, post, None::<String>, default_content_type),
{
}

/// Law: an explicit handler-set content type survives processing; only a
/// response without one is given the default.
pub proof fn lemma_content_type_preserved(
    pre: Response,
    post: Response,
    rendered: Option<String>,
    default_content_type: String,
)
    requires
        process_transition(pre, post, rendered, default_content_type),
        pre.content_type is Some,
    ensures
        post.content_type == pre.content_type,
{
}

/// Law: rendering behaves identically on the success path and the error
/// path. The relation `catch` guarantees between the responses embedded in
/// the incoming and re-raised errors is exactly the relation `process`
/// guarantees between a response and its processed form.
pub proof fn lemma_error_path_symmetry(
    pre: PipelineError,
    post: PipelineError,
    rendered: Option<String>,
    default_content_type: String,
)
    ensures
        catch_transition(pre, post, rendered, default_content_type) <==> process_transition(
            pre.response,
            post.response,
            rendered,
            default_content_type,
        ),
{
}

} // verus!
