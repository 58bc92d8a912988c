use js_minifier::diagnostics::build_diagnostic;
use js_minifier::diagnostics::highlights_from_parts;
use js_minifier::diagnostics::RawDiagnostic;
use js_minifier::DiagnosticCollector;
use js_minifier::SourceLocation;

use swc_common::sync::Lrc;
use swc_common::FileName;
use swc_common::SourceMap;

#[test]
fn fixed_column_correction() {
    let loc = SourceLocation::from_line_cols(3, 4, 3, 9);
    assert_eq!(loc.start_line, 3);
    assert_eq!(loc.start_col, 5);
    assert_eq!(loc.end_line, 3);
    assert_eq!(loc.end_col, 9);
}

#[test]
fn coordinates_of_a_known_identifier() {
    let cm: Lrc<SourceMap> = Lrc::new(SourceMap::default());
    let file = cm.new_source_file(
        Lrc::new(FileName::Real("k.js".into())),
        "let a = 1;\nlet x = foo;\n".to_string(),
    );
    // "foo" sits on line 2, 1-based columns 9..=11, bytes 19..22 of the file.
    let base = file.start_pos.0;
    let loc = SourceLocation::from(&cm, &file, base + 19, base + 22)
        .expect("offsets inside the registered file must resolve");
    assert_eq!(loc.start_line, 2);
    assert_eq!(loc.start_col, 9);
    assert_eq!(loc.end_line, 2);
    assert_eq!(loc.end_col, 11);
    assert_eq!(loc.end_col, loc.start_col + "foo".len() - 1);
}

#[test]
fn collector_keeps_emission_order() {
    let mut collector = DiagnosticCollector::new();
    collector.emit(RawDiagnostic {
        message: "first".to_string(),
        labels: Vec::new(),
        hints: Vec::new(),
    });
    collector.emit(RawDiagnostic {
        message: "second".to_string(),
        labels: Vec::new(),
        hints: vec!["try this".to_string()],
    });
    let records = collector.drain();
    assert_eq!(records.len(), 2);
    assert_eq!(records[0].message, "first");
    assert_eq!(records[1].message, "second");
    assert_eq!(records[1].hints[0], "try this");
}

#[test]
fn highlights_keep_order_and_fields() {
    let first = SourceLocation { start_line: 1, start_col: 2, end_line: 1, end_col: 4 };
    let second = SourceLocation { start_line: 3, start_col: 1, end_line: 3, end_col: 7 };
    let parts = vec![
        (Some("here".to_string()), first.clone()),
        (None, second.clone()),
    ];
    let highlights = highlights_from_parts(parts);
    assert_eq!(highlights.len(), 2);
    assert_eq!(highlights[0].message.as_deref(), Some("here"));
    assert_eq!(highlights[0].loc, first);
    assert_eq!(highlights[1].message, None);
    assert_eq!(highlights[1].loc, second);
}

#[test]
fn empty_parts_are_reported_absent() {
    let d = build_diagnostic("oops".to_string(), Vec::new(), Vec::new());
    assert_eq!(d.message, "oops");
    assert!(d.code_highlights.is_none());
    assert!(d.hints.is_none());
}

#[test]
fn populated_parts_are_reported_present() {
    let loc = SourceLocation { start_line: 1, start_col: 1, end_line: 1, end_col: 2 };
    let highlights = highlights_from_parts(vec![(None, loc)]);
    let d = build_diagnostic(
        "syntax".to_string(),
        highlights,
        vec!["add a name".to_string()],
    );
    assert_eq!(d.code_highlights.unwrap().len(), 1);
    assert_eq!(d.hints.unwrap(), vec!["add a name".to_string()]);
}

#[test]
fn pairing_skips_unresolved_labels_in_order() {
    let labels = vec![
        js_minifier::diagnostics::RawLabel { message: Some("a".to_string()), lo: 0, hi: 1 },
        js_minifier::diagnostics::RawLabel { message: None, lo: 2, hi: 3 },
        js_minifier::diagnostics::RawLabel { message: Some("c".to_string()), lo: 4, hi: 5 },
    ];
    let first = SourceLocation { start_line: 1, start_col: 1, end_line: 1, end_col: 2 };
    let third = SourceLocation { start_line: 2, start_col: 5, end_line: 2, end_col: 6 };
    let locs = vec![Some(first), None, Some(third)];
    let parts = js_minifier::diagnostics::pair_resolved_labels(&labels, &locs);
    assert_eq!(parts.len(), 2);
    assert_eq!(parts[0].0.as_deref(), Some("a"));
    assert_eq!(parts[0].1, first);
    assert_eq!(parts[1].0.as_deref(), Some("c"));
    assert_eq!(parts[1].1, third);
}

#[test]
fn empty_file_offsets_do_not_resolve() {
    let cm: Lrc<SourceMap> = Lrc::new(SourceMap::default());
    let file = cm.new_source_file(Lrc::new(FileName::Real("z.js".into())), String::new());
    let base = file.start_pos.0;
    // An empty file has no 1-based line for any offset, so no location is
    // reported rather than one outside the convention.
    assert!(SourceLocation::from(&cm, &file, base, base).is_none());
}
