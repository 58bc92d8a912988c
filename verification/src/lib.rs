//! A verified orchestration layer over an external ECMAScript minification
//! engine: one request/response entry point that parses a source unit,
//! drives a fixed transform pipeline, and reports either minified code with
//! an optional source map or structured diagnostics with exact coordinates.

pub mod diagnostics;
pub mod engine;
pub mod location;
pub mod pipeline;

pub use diagnostics::CodeHighlight;
pub use diagnostics::Diagnostic;
pub use diagnostics::DiagnosticCollector;
pub use location::SourceLocation;
pub use pipeline::transform;
pub use pipeline::Config;
pub use pipeline::TransformError;
pub use pipeline::TransformResult;
