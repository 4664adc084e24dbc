use iron_tera::PipelineError;
use iron_tera::Response;
use iron_tera::Template;
use iron_tera::TemplateError;
use iron_tera::TeraEngine;
use iron_tera::TemplateMode;
use tera::Context;

fn engine_with(name: &str, content: &str) -> TeraEngine {
    let mut tera = tera::Tera::default();
    tera.add_raw_template(name, content)
        .expect("template compiles");
    TeraEngine::new(tera)
}

#[test]
fn renders_structured_context_with_html_default() {
    let engine = engine_with("greet.html", "Hello {{name}}");
    let mut context = Context::new();
    context.insert("name", &"Ada");
    let mut resp = Response::new();
    Template::from_context("greet.html".to_string(), context).modify(&mut resp);
    let processed = engine.process(resp).expect("render succeeds");
    assert_eq!(processed.body, Some("Hello Ada".to_string()));
    assert_eq!(processed.content_type, Some("text/html".to_string()));
    assert!(processed.slot.is_none());
}

#[test]
fn renders_serialized_record() {
    let engine = engine_with("item.html", "{{name}}: {{value}}");
    let mut record = serde_json::Map::new();
    record.insert(
        "name".to_string(),
        serde_json::Value::String("Widget".to_string()),
    );
    record.insert("value".to_string(), serde_json::Value::from(42));
    let template = Template::from_serial(
        "item.html".to_string(),
        serde_json::Value::Object(record),
    )
    .expect("a plain record serializes");
    let mut resp = Response::new();
    template.modify(&mut resp);
    let processed = engine.process(resp).expect("render succeeds");
    assert_eq!(processed.body, Some("Widget: 42".to_string()));
    assert_eq!(processed.content_type, Some("text/html".to_string()));
}

#[test]
fn last_write_wins_for_duplicate_keys() {
    let engine = engine_with("greet.html", "Hello {{name}}");
    let mut context = Context::new();
    context.insert("name", &"first");
    context.insert("name", &"Ada");
    let mut resp = Response::new();
    Template::from_context("greet.html".to_string(), context).modify(&mut resp);
    let processed = engine.process(resp).expect("render succeeds");
    assert_eq!(processed.body, Some("Hello Ada".to_string()));
}

#[test]
fn missing_template_is_a_rendering_error() {
    let engine = engine_with("greet.html", "Hello {{name}}");
    let mut resp = Response::new();
    Template::from_context("missing.html".to_string(), Context::new()).modify(&mut resp);
    match engine.process(resp) {
        Ok(_) => panic!("expected a rendering error"),
        Err(e) => {
            assert!(matches!(e, TemplateError::RenderErr(_)));
            assert!(e.is_render_failure());
            assert!(!e.message().is_empty());
        }
    }
}

#[test]
fn process_without_attach_is_a_no_op() {
    let engine = engine_with("greet.html", "Hello {{name}}");
    let mut resp = Response::new();
    resp.status = Some(200);
    resp.content_type = Some("text/plain".to_string());
    resp.body = Some("untouched".to_string());
    let out = engine.process(resp).expect("a bare response passes through");
    assert_eq!(out.status, Some(200));
    assert_eq!(out.content_type, Some("text/plain".to_string()));
    assert_eq!(out.body, Some("untouched".to_string()));
    assert!(out.slot.is_none());
}

#[test]
fn process_twice_is_idempotent_once() {
    let engine = engine_with("greet.html", "Hello {{name}}");
    let mut context = Context::new();
    context.insert("name", &"Ada");
    let mut resp = Response::new();
    resp.status = Some(200);
    Template::from_context("greet.html".to_string(), context).modify(&mut resp);
    let once = engine.process(resp).expect("render succeeds");
    let body = once.body.clone();
    let content_type = once.content_type.clone();
    let status = once.status;
    let twice = engine.process(once).expect("second pass is a no-op");
    assert_eq!(twice.body, body);
    assert_eq!(twice.content_type, content_type);
    assert_eq!(twice.status, status);
    assert!(twice.slot.is_none());
}

#[test]
fn explicit_content_type_is_preserved() {
    let engine = engine_with("greet.html", "Hello {{name}}");
    let mut context = Context::new();
    context.insert("name", &"Ada");
    let mut resp = Response::new();
    resp.content_type = Some("text/plain".to_string());
    Template::from_context("greet.html".to_string(), context).modify(&mut resp);
    let processed = engine.process(resp).expect("render succeeds");
    assert_eq!(processed.content_type, Some("text/plain".to_string()));
    assert_eq!(processed.body, Some("Hello Ada".to_string()));
}

#[test]
fn default_content_type_is_configurable() {
    let mut engine = engine_with("greet.html", "Hello {{name}}");
    engine.default_content_type = "application/xhtml+xml".to_string();
    let mut context = Context::new();
    context.insert("name", &"Ada");
    let mut resp = Response::new();
    Template::from_context("greet.html".to_string(), context).modify(&mut resp);
    let processed = engine.process(resp).expect("render succeeds");
    assert_eq!(
        processed.content_type,
        Some("application/xhtml+xml".to_string())
    );
}

#[test]
fn error_path_renders_like_success_path() {
    let engine = engine_with("greet.html", "Hello {{name}}");

    let mut context_a = Context::new();
    context_a.insert("name", &"Ada");
    let mut success_resp = Response::new();
    Template::from_context("greet.html".to_string(), context_a).modify(&mut success_resp);
    let processed = engine.process(success_resp).expect("render succeeds");

    let mut context_b = Context::new();
    context_b.insert("name", &"Ada");
    let mut error_resp = Response::new();
    Template::from_context("greet.html".to_string(), context_b).modify(&mut error_resp);
    let reraised = engine
        .catch(PipelineError { response: error_resp })
        .expect("the error is re-raised with its page rendered");

    assert_eq!(reraised.response.body, processed.body);
    assert_eq!(reraised.response.content_type, processed.content_type);
    assert!(reraised.response.slot.is_none());
}

#[test]
fn catch_without_instruction_re_raises_unchanged() {
    let engine = engine_with("greet.html", "Hello {{name}}");
    let mut resp = Response::new();
    resp.status = Some(404);
    resp.body = Some("plain error".to_string());
    let reraised = engine
        .catch(PipelineError { response: resp })
        .expect("a bare error passes through");
    assert_eq!(reraised.response.status, Some(404));
    assert_eq!(reraised.response.body, Some("plain error".to_string()));
    assert!(reraised.response.content_type.is_none());
}

#[test]
fn catch_surfaces_a_rendering_failure() {
    let engine = engine_with("greet.html", "Hello {{name}}");
    let mut resp = Response::new();
    Template::from_context("missing.html".to_string(), Context::new()).modify(&mut resp);
    match engine.catch(PipelineError { response: resp }) {
        Ok(_) => panic!("expected a rendering error"),
        Err(e) => assert!(e.is_render_failure()),
    }
}

#[test]
fn serialized_scalar_is_rejected_at_render_time() {
    // The engine's bindings need a map at the top level; a bare scalar is an
    // instruction the engine refuses, surfaced as a rendering error.
    let engine = engine_with("greet.html", "Hello {{name}}");
    let template = Template::new(
        "greet.html".to_string(),
        TemplateMode::from_serial(serde_json::Value::from(7)).expect("a scalar serializes"),
    );
    let mut resp = Response::new();
    template.modify(&mut resp);
    match engine.process(resp) {
        Ok(_) => panic!("expected a rendering error"),
        Err(e) => assert!(e.is_render_failure()),
    }
}

#[test]
fn apply_render_outcome_is_exact() {
    let engine = engine_with("greet.html", "Hello {{name}}");
    let mut resp = Response::new();
    resp.status = Some(200);
    let applied = engine
        .apply_render_outcome(resp, Ok("Hello Ada".to_string()))
        .expect("a successful outcome is applied");
    assert_eq!(applied.status, Some(200));
    assert_eq!(applied.body, Some("Hello Ada".to_string()));
    assert_eq!(applied.content_type, Some("text/html".to_string()));
    assert!(applied.slot.is_none());

    let failed = tera::Error::message("boom");
    let mut other = Response::new();
    other.body = Some("old body".to_string());
    match engine.apply_render_outcome(other, Err(failed)) {
        Ok(_) => panic!("expected a rendering error"),
        Err(e) => assert!(e.is_render_failure()),
    }
}
