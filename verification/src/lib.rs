//! A small adapter that lets request handlers attach a "render this template
//! with this data" instruction to an in-flight response, deferring the
//! actual render to one shared engine stage that runs after handler logic.

pub mod engine;
pub mod error;
pub mod external_api;
pub mod mode;
pub mod response;
pub mod template;

pub use engine::TeraEngine;
pub use error::TemplateError;
pub use mode::TemplateMode;
pub use response::PipelineError;
pub use response::Response;
pub use template::Template;
