//! The trusted boundary to the external ECMAScript engine: the parser, the
//! minifier, the cleanup passes and the code generator are consumed as opaque
//! capabilities. Every item here is believed, not proved; each doc comment
//! names the external function relied on.

use vstd::prelude::*;

use crate::diagnostics::RawDiagnostic;
use crate::diagnostics::RawLabel;
use swc_common::comments::SingleThreadedComments;
use swc_common::errors::Handler;
use swc_common::sync::Lrc;
use swc_common::BytePos;
use swc_common::FileName;
use swc_common::Globals;
use swc_common::LineCol;
use swc_common::Mark;
use swc_common::SourceFile;
use swc_common::SourceMap;
use swc_common::GLOBALS;
use swc_ecma_ast::Program;
use swc_ecma_minifier::option::ExtraOptions;
use swc_ecma_minifier::option::MinifyOptions;
use swc_ecma_parser::error::Error;
use swc_ecma_parser::EsSyntax;
use swc_ecma_parser::Parser;
use swc_ecma_parser::StringInput;
use swc_ecma_parser::Syntax;
use swc_ecma_transforms_base::fixer::fixer;
use swc_ecma_transforms_base::hygiene::hygiene;
use swc_ecma_transforms_base::resolver;
use swc_ecma_transforms_compat::reserved_words::reserved_words;

verus! {

#[verifier::external_type_specification]
#[verifier::external_body]
pub struct ExSourceMap(SourceMap);

#[verifier::external_type_specification]
#[verifier::external_body]
pub struct ExSourceFile(SourceFile);

#[verifier::external_type_specification]
#[verifier::external_body]
pub struct ExGlobals(Globals);

#[verifier::external_type_specification]
#[verifier::external_body]
pub struct ExMark(Mark);

#[verifier::external_type_specification]
#[verifier::external_body]
pub struct ExComments(SingleThreadedComments);

#[verifier::external_type_specification]
#[verifier::external_body]
pub struct ExProgram(Program);

#[verifier::external_type_specification]
#[verifier::external_body]
pub struct ExParseError(Error);

#[verifier::external_type_specification]
#[verifier::external_body]
pub struct ExBytePos(BytePos);

#[verifier::external_type_specification]
#[verifier::external_body]
pub struct ExLineCol(LineCol);

/// Relies on swc_common::SourceMap::default: a fresh, empty position table,
/// owned by one request.
#[verifier::external_body]
pub(crate) fn new_source_map() -> (r: Lrc<SourceMap>) {
    Lrc::new(SourceMap::default())
}

/// Whether the fixed ECMAScript grammar of this system accepts a source text
/// as a module. The parser's verdict is a function of the text alone (the
/// grammar configuration is fixed and the file name plays no part), so the
/// outcome carries a name; nothing else is assumed of it.
pub uninterp spec fn es_parses(code: Seq<char>) -> bool;

/// Relies on swc_common::SourceMap::try_lookup_char_pos_with: resolves a byte
/// offset within the given registered file to its 1-based line and 0-based
/// display column, or reports failure. A display column counts characters of
/// one line held in memory, so it is strictly below usize::MAX.
#[verifier::external_body]
pub(crate) fn lookup_line_col(cm: &Lrc<SourceMap>, file: &Lrc<SourceFile>, pos: u32) -> (r: Option<
    (usize, usize),
>)
    ensures
        r matches Some(lc) ==> lc.1 < usize::MAX,
{
    match cm.try_lookup_char_pos_with(file.clone(), BytePos(pos)) {
        Ok(loc) => Some((loc.line, loc.col_display)),
        Err(_) => None,
    }
}

/// Relies on swc_common::SourceMap::new_source_file and on
/// swc_ecma_parser::Parser::parse_module, with the fixed grammar
/// configuration of this system: plain ECMAScript with `export ... from`
/// default re-exports enabled (dynamic `import()`, namespace re-exports and
/// `import.meta` are always enabled by this parser). Registers the source
/// text under the given name and parses it as one module, returning the
/// registered handle together with the syntax tree and its comment table, or
/// the structured parse error. Success is decided by the text alone, which
/// `es_parses` names.
#[verifier::external_body]
pub(crate) fn parse_program(cm: &Lrc<SourceMap>, filename: &str, code: &str) -> (r: (
    Lrc<SourceFile>,
    Result<(Program, SingleThreadedComments), Error>,
))
    ensures
        (r.1 is Ok) == es_parses(code@),
{
    let name = Lrc::new(FileName::Real(std::path::PathBuf::from(filename)));
    let file = cm.new_source_file(name, code.to_string());
    let comments = SingleThreadedComments::default();
    let syntax = Syntax::Es(EsSyntax { export_default_from: true, ..Default::default() });
    let mut parser = Parser::new(syntax, StringInput::from(&*file), Some(&comments));
    let parsed = parser.parse_module();
    drop(parser);
    match parsed {
        Ok(module) => (file, Ok((Program::Module(module), comments))),
        Err(error) => (file, Err(error)),
    }
}

/// Relies on swc_common::Globals::default: a fresh isolated context for one
/// request, so marks and interned identifiers of concurrent requests never
/// collide.
#[verifier::external_body]
pub(crate) fn new_globals() -> (r: Globals) {
    Globals::default()
}

/// Relies on swc_ecma_transforms_base::resolver: rewrites the tree so every
/// binding and reference carries scope identity relative to two marks drawn
/// fresh from the request's context, which are returned for the minifier.
#[verifier::external_body]
pub(crate) fn apply_resolver(globals: &Globals, program: Program) -> (r: (Program, Mark, Mark)) {
    GLOBALS.set(globals, || {
        let unresolved_mark = Mark::new();
        let top_level_mark = Mark::new();
        let resolved = program.apply(resolver(unresolved_mark, top_level_mark, false));
        (resolved, unresolved_mark, top_level_mark)
    })
}

/// Relies on swc_ecma_minifier::optimize, invoked with renaming enabled,
/// wrapping and enclosing disabled, the default compression policy and the
/// default mangling policy, under the marks the resolver used.
#[verifier::external_body]
pub(crate) fn minify(
    globals: &Globals,
    cm: &Lrc<SourceMap>,
    program: Program,
    comments: &SingleThreadedComments,
    unresolved_mark: Mark,
    top_level_mark: Mark,
) -> (r: Program) {
    GLOBALS.set(globals, || {
        let options = MinifyOptions {
            rename: true, wrap: false, enclose: false,
            compress: Some(Default::default()), mangle: Some(Default::default()),
        };
        let extra = ExtraOptions { unresolved_mark, top_level_mark, mangle_name_cache: None };
        swc_ecma_minifier::optimize(program, cm.clone(), Some(comments), None, &options, &extra)
    })
}

/// Relies on swc_ecma_transforms_compat::reserved_words::reserved_words:
/// rewrites identifiers that collide with language reserved words.
#[verifier::external_body]
pub(crate) fn apply_reserved_words(globals: &Globals, program: Program) -> (r: Program) {
    GLOBALS.set(globals, || program.apply(reserved_words()))
}

/// Relies on swc_ecma_transforms_base::hygiene::hygiene: resolves naming
/// collisions introduced by renaming and mangling.
#[verifier::external_body]
pub(crate) fn apply_hygiene(globals: &Globals, program: Program) -> (r: Program) {
    GLOBALS.set(globals, || program.apply(hygiene()))
}

/// Relies on swc_ecma_transforms_base::fixer::fixer with the comment table:
/// repairs tree invariants violated by the prior rewrites.
#[verifier::external_body]
pub(crate) fn apply_fixer(
    globals: &Globals,
    program: Program,
    comments: &SingleThreadedComments,
) -> (r: Program) {
    GLOBALS.set(globals, || program.apply(fixer(Some(comments))))
}

/// Relies on swc_ecma_codegen::Emitter::emit_program in minified layout with
/// the comment table attached. Raw source mappings are collected only when
/// `source_maps` is requested; otherwise the mapping buffer stays empty.
#[verifier::external_body]
pub(crate) fn emit_program(
    cm: &Lrc<SourceMap>,
    comments: &SingleThreadedComments,
    program: &Program,
    source_maps: bool,
) -> (r: Result<(Vec<u8>, Vec<(BytePos, LineCol)>), ()>)
    ensures
        !source_maps ==> (r matches Ok(p) ==> p.1@.len() == 0),
{
    let mut buf: Vec<u8> = Vec::new();
    let mut mappings: Vec<(BytePos, LineCol)> = Vec::new();
    let emitted = {
        let srcmap = if source_maps { Some(&mut mappings) } else { None };
        let wr = swc_ecma_codegen::text_writer::JsWriter::new(cm.clone(), "\n", &mut buf, srcmap);
        let cfg = swc_ecma_codegen::Config::default().with_minify(true);
        let mut emitter = swc_ecma_codegen::Emitter { cfg, cm: cm.clone(), comments: Some(comments), wr };
        emitter.emit_program(program)
    };
    match emitted {
        Ok(_) => Ok((buf, mappings)),
        Err(_) => Err(()),
    }
}

/// Relies on swc_common::SourceMap::build_source_map and on the emitted
/// document's to_writer: encodes the raw mappings into a standard source-map
/// document. Any failure, of the writer or of the final text decoding, is
/// reported as absence.
#[verifier::external_body]
pub(crate) fn encode_source_map(cm: &Lrc<SourceMap>, mappings: &Vec<(BytePos, LineCol)>) -> (r:
    Option<String>) {
    let document = cm.build_source_map(
        mappings.as_slice(),
        None,
        swc_common::source_map::DefaultSourceMapGenConfig,
    );
    let mut buf: Vec<u8> = Vec::new();
    match document.to_writer(&mut buf) {
        Ok(_) => String::from_utf8(buf).ok(),
        Err(_) => None,
    }
}

/// Relies on alloc::string::String::from_utf8: decodes the emitted bytes,
/// which the code generator always produces as valid UTF-8; reports failure
/// instead of panicking.
#[verifier::external_body]
pub(crate) fn utf8_string(bytes: Vec<u8>) -> (r: Option<String>) {
    String::from_utf8(bytes).ok()
}

/// Relies on swc_ecma_parser::error::Error::into_diagnostic, on the record's
/// message, and on swc_common::errors::MultiSpan::span_labels: renders the
/// parse error into one raw record carrying its message text, its labeled
/// spans in order (with a label-less entry for each primary span), and the
/// message of each suggestion. The record is taken before emission and the
/// builder is cancelled, so nothing is printed anywhere.
#[verifier::external_body]
pub(crate) fn expand_parse_error(error: Error) -> (r: RawDiagnostic) {
    let handler = Handler::with_emitter_writer(Box::new(std::io::sink()), None);
    let mut builder = error.into_diagnostic(&handler);
    let rendered = (*builder).clone();
    builder.cancel();
    let labels = rendered.span.span_labels().into_iter()
        .map(|l| RawLabel { message: l.label, lo: l.span.lo.0, hi: l.span.hi.0 })
        .collect();
    let hints = rendered.suggestions.iter().map(|s| s.msg.clone()).collect();
    RawDiagnostic { message: rendered.message(), labels, hints }
}

} // verus!
