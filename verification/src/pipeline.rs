//! The request/response orchestrator: one synchronous entry point that
//! drives parsing, the fixed transform pipeline and emission, and reports
//! either minified code or structured diagnostics, never both.

use vstd::prelude::*;

use crate::diagnostics::diagnostics_from_records;
use crate::diagnostics::Diagnostic;
use crate::diagnostics::DiagnosticCollector;
use crate::diagnostics::RawDiagnostic;
use crate::engine;
use crate::engine::es_parses;

verus! {

/// One transformation request: a file name, the source text, and whether a
/// source map is wanted.
#[derive(Debug)]
pub struct Config {
    pub filename: String,
    pub code: String,
    pub source_maps: bool,
}

/// One transformation response. Exactly one of `code` and `diagnostics` is
/// meaningful: on success `diagnostics` is absent, on parse failure `code`
/// is empty and `map` is absent.
#[derive(Debug)]
pub struct TransformResult {
    pub code: String,
    pub map: Option<String>,
    pub diagnostics: Option<Vec<Diagnostic>>,
}

impl TransformResult {
    /// One direction of the outcome dichotomy, true of every response: when
    /// `diagnostics` is present, `code` is empty and `map` is absent. The
    /// converse cannot be structural (an empty module minifies to empty code
    /// with no diagnostics), so `transform` states it over the parse outcome
    /// instead.
    pub open spec fn exclusive(self) -> bool {
        self.diagnostics is Some ==> (self.code@.len() == 0 && self.map is None)
    }
}

/// An abrupt failure of the emission stage. Parse errors are never reported
/// this way: they become diagnostics in a normal response.
#[derive(Debug, Clone, PartialEq, Eq, Structural)]
pub enum TransformError {
    /// The code generator reported a write error.
    Emit,
    /// The emitted bytes could not be decoded as text.
    OutputEncoding,
}

/// Builds the success response: the emitted code, the optional encoded map,
/// and no diagnostics.
pub fn success_result(code: String, map: Option<String>) -> (r: TransformResult)
    ensures
        r.code == code,
        r.map == map,
        r.diagnostics is None,
        r.exclusive(),
{
    TransformResult { code, map, diagnostics: None }
}

/// Builds the failure response: empty code, no map, and the diagnostics in
/// emission order.
pub fn failure_result(diagnostics: Vec<Diagnostic>) -> (r: TransformResult)
    ensures
        r.code@.len() == 0,
        r.map is None,
        r.diagnostics matches Some(d) && d@ == diagnostics@,
        r.exclusive(),
{
    TransformResult { code: String::new(), map: None, diagnostics: Some(diagnostics) }
}

/// Expands one parse error into a raw record through the collector, then
/// converts it into exactly one reported diagnostic.
fn diagnostics_from_parse_error(
    cm: &swc_common::sync::Lrc<swc_common::SourceMap>,
    file: &swc_common::sync::Lrc<swc_common::SourceFile>,
    error: swc_ecma_parser::error::Error,
) -> (r: Vec<Diagnostic>)
    ensures
        r@.len() == 1,
{
    let record: RawDiagnostic = engine::expand_parse_error(error);
    let mut collector = DiagnosticCollector::new();
    collector.emit(record);
    let records = collector.drain();
    diagnostics_from_records(cm, file, &records)
}

/// The single request/response entry point. Parsing decides between the two
/// terminal outcomes: on failure the error is expanded into diagnostics and
/// the response carries empty code and no map; on success the fixed pipeline
/// runs (scope marking, minification, reserved-word rewriting, hygiene,
/// fixing, in that order), the tree is emitted, and a source map is attached
/// only when requested and only when encoding succeeds. A failure of the
/// emission stage itself is fatal for the request and is returned as an
/// error, never as diagnostics. Whether parsing succeeds is a function of
/// the source text alone, named `es_parses`: the response carries
/// diagnostics exactly when the text does not parse, and a text that does
/// not parse always gets the failure response.
pub fn transform(config: &Config) -> (r: Result<TransformResult, TransformError>)
    ensures
        r matches Ok(res) ==> res.exclusive(),
        !config.source_maps ==> (r matches Ok(res) ==> res.map is None),
        r matches Ok(res) ==> (res.map is Some ==> config.source_maps && res.diagnostics is None),
        r matches Ok(res) ==> (res.diagnostics is Some <==> !es_parses(config.code@)),
        !es_parses(config.code@) ==> (r matches Ok(res) && res.code@.len() == 0 && res.map is None
            && (res.diagnostics matches Some(ds) && ds@.len() == 1)),
{
    let cm = engine::new_source_map();
    let (file, parsed) = engine::parse_program(
        &cm,
        config.filename.as_str(),
        config.code.as_str(),
    );
    match parsed {
        Err(error) => {
            let diagnostics = diagnostics_from_parse_error(&cm, &file, error);
            Ok(failure_result(diagnostics))
        },
        Ok((parsed_program, comments)) => {
            let globals = engine::new_globals();
            let (resolved, unresolved_mark, top_level_mark) = engine::apply_resolver(
                &globals,
                parsed_program,
            );
            let minified = engine::minify(
                &globals,
                &cm,
                resolved,
                &comments,
                unresolved_mark,
                top_level_mark,
            );
            let rewritten = engine::apply_reserved_words(&globals, minified);
            let hygienic = engine::apply_hygiene(&globals, rewritten);
            let fixed = engine::apply_fixer(&globals, hygienic, &comments);
            match engine::emit_program(&cm, &comments, &fixed, config.source_maps) {
                Err(_) => Err(TransformError::Emit),
                Ok((buf, mappings)) => {
                    let map: Option<String> = if config.source_maps {
                        engine::encode_source_map(&cm, &mappings)
                    } else {
                        None
                    };
                    match engine::utf8_string(buf) {
                        None => Err(TransformError::OutputEncoding),
                        Some(code) => Ok(success_result(code, map)),
                    }
                },
            }
        },
    }
}

} // verus!
