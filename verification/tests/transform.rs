use js_minifier::transform;
use js_minifier::Config;

fn run(filename: &str, code: &str, source_maps: bool) -> js_minifier::TransformResult {
    let config = Config {
        filename: filename.to_string(),
        code: code.to_string(),
        source_maps,
    };
    transform(&config).expect("the emission stage should not fail on this input")
}

#[test]
fn constant_folded_function() {
    let res = run("a.js", "function foo(){ return 1+2; }", false);
    assert!(res.diagnostics.is_none());
    assert!(res.map.is_none());
    assert_eq!(res.code, "function foo(){return 3;}");
}

#[test]
fn parse_error_becomes_diagnostics() {
    let res = run("b.js", "function(", false);
    assert_eq!(res.code, "");
    assert!(res.map.is_none());
    let diagnostics = res.diagnostics.expect("a parse failure must carry diagnostics");
    assert!(!diagnostics.is_empty());
    assert!(!diagnostics[0].message.is_empty());
    let highlights = diagnostics[0]
        .code_highlights
        .as_ref()
        .expect("the parse error span must be highlighted");
    assert!(!highlights.is_empty());
    assert!(highlights.iter().any(|h| h.loc.start_line == 1));
    // The offending token is the `(` after `function`, at 1-based column 9.
    assert_eq!(diagnostics[0].message, "Expected ident");
    assert_eq!(highlights[0].loc.start_line, 1);
    assert_eq!(highlights[0].loc.start_col, 9);
    assert!(diagnostics[0].hints.is_none());
}

#[test]
fn response_outcomes_are_exclusive() {
    let ok = run("ok.js", "let a = 1; console.log(a);", false);
    assert!(ok.diagnostics.is_none());
    let err = run("bad.js", "let = ;", false);
    if let Some(d) = err.diagnostics {
        assert!(!d.is_empty());
        assert_eq!(err.code, "");
        assert!(err.map.is_none());
    } else {
        panic!("this input must fail to parse");
    }
}

#[test]
fn source_map_toggle() {
    let code = "function add1(x){ return x + 1; }\nconsole.log(add1(41));";
    let without = run("t.js", code, false);
    assert!(without.map.is_none());
    assert!(without.diagnostics.is_none());
    let with = run("t.js", code, true);
    assert!(with.diagnostics.is_none());
    let map = with.map.expect("a successful transform with source maps wanted returns a map");
    assert!(!map.is_empty());
    assert!(map.contains("\"mappings\""));
}

#[test]
fn unused_local_removed_and_idempotent() {
    let res = run(
        "c.js",
        "function f(){ var unusedLocal = 1; return 2; }\nconsole.log(f());",
        false,
    );
    assert!(res.diagnostics.is_none());
    assert!(!res.code.contains("unusedLocal"));
    assert_eq!(res.code, "function f(){return 2;}console.log(f());");
    let again = run("c.js", res.code.as_str(), false);
    assert!(again.diagnostics.is_none());
    assert_eq!(again.code, res.code);
    let third = run("c.js", again.code.as_str(), false);
    assert_eq!(third.code, again.code);
}

#[test]
fn empty_input_is_a_success() {
    let res = run("empty.js", "", false);
    assert!(res.diagnostics.is_none());
    assert!(res.map.is_none());
    assert_eq!(res.code, "");
}

#[test]
fn comments_are_preserved() {
    let res = run("d.js", "/*! keep */ function g(){ return 4; }\nconsole.log(g());", false);
    assert!(res.diagnostics.is_none());
    assert!(res.code.contains("keep"));
}

#[test]
fn parse_failure_never_carries_a_map() {
    let res = run("e.js", "function(", true);
    assert_eq!(res.code, "");
    assert!(res.map.is_none());
    assert!(res.diagnostics.is_some());
}

#[test]
fn map_names_the_registered_file() {
    let res = run("named.js", "function h(){ return 7; }\nconsole.log(h());", true);
    assert!(res.diagnostics.is_none());
    let map = res.map.expect("a successful transform with source maps wanted returns a map");
    assert!(map.contains("named.js"));
}
