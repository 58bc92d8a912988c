//! Structured diagnostics: the raw records collected while parsing fails,
//! the request-scoped collector that accumulates them, and their conversion
//! into the reported diagnostic shape.

use vstd::prelude::*;

use crate::location::SourceLocation;
use swc_common::sync::Lrc;
use swc_common::SourceFile;
use swc_common::SourceMap;

verus! {

/// A labeled source span attached to a reported diagnostic, pinpointing where
/// an error applies. The label is optional: a span with no label still
/// produces a highlight entry with an absent message.
#[derive(Debug)]
pub struct CodeHighlight {
    pub message: Option<String>,
    pub loc: SourceLocation,
}

/// One structured error report: a rendered message, optionally a list of
/// highlighted spans, and optionally a list of textual hints (suggested
/// fixes). Produced only on parse failure.
#[derive(Debug)]
pub struct Diagnostic {
    pub message: String,
    pub code_highlights: Option<Vec<CodeHighlight>>,
    pub hints: Option<Vec<String>>,
}

/// A labeled span of a raw error record, in byte offsets of the source unit.
#[derive(Debug)]
pub struct RawLabel {
    pub message: Option<String>,
    pub lo: u32,
    pub hi: u32,
}

/// One raw error record as the parser's error expansion hands it over:
/// a rendered message, the labeled spans, and the suggestion messages.
#[derive(Debug)]
pub struct RawDiagnostic {
    pub message: String,
    pub labels: Vec<RawLabel>,
    pub hints: Vec<String>,
}

/// A request-scoped, append-only sink of raw error records. Records are
/// appended in emission order and drained exactly once, in that order;
/// nothing is ever re-sorted or dropped.
pub struct DiagnosticCollector {
    records: Vec<RawDiagnostic>,
}

impl DiagnosticCollector {
    /// The records accumulated so far, in emission order.
    pub closed spec fn records_seq(self) -> Seq<RawDiagnostic> {
        self.records@
    }

    pub fn new() -> (r: DiagnosticCollector)
        ensures
            r.records_seq() == Seq::<RawDiagnostic>::empty(),
    {
        DiagnosticCollector { records: Vec::new() }
    }

    /// Appends one record; earlier records are untouched, so emission order
    /// is preserved.
    pub fn emit(&mut self, record: RawDiagnostic)
        ensures
            final(self).records_seq() == old(self).records_seq().push(record),
    {
        self.records.push(record);
    }

    /// Hands the accumulated records out, in emission order. Consumes the
    /// collector: it is drained exactly once per request.
    pub fn drain(self) -> (r: Vec<RawDiagnostic>)
        ensures
            r@ == self.records_seq(),
    {
        self.records
    }
}

/// The in-order pairing of a record's labels with the outcomes of their span
/// lookups: a label whose span did not resolve is skipped, and one whose span
/// resolved to a location contributes its message paired with that location.
/// The pairing stops at the shorter of the two sequences.
pub open spec fn paired_labels(
    labels: Seq<RawLabel>,
    locs: Seq<Option<SourceLocation>>,
) -> Seq<(Option<String>, SourceLocation)>
    decreases labels.len(),
{
    if labels.len() == 0 || locs.len() == 0 {
        Seq::empty()
    } else {
        let rest = paired_labels(labels.drop_first(), locs.drop_first());
        match locs.first() {
            Some(loc) => seq![(labels.first().message, loc)] + rest,
            None => rest,
        }
    }
}

/// The highlight entries for resolved parts, one for one and in order.
pub open spec fn highlights_of(parts: Seq<(Option<String>, SourceLocation)>) -> Seq<CodeHighlight> {
    parts.map(|i: int, p: (Option<String>, SourceLocation)| CodeHighlight { message: p.0, loc: p.1 })
}

/// How a diagnostic reports resolved parts: absent when there are none, else
/// exactly their highlight entries.
pub open spec fn highlights_reported(
    d: Diagnostic,
    parts: Seq<(Option<String>, SourceLocation)>,
) -> bool {
    if parts.len() == 0 {
        d.code_highlights is None
    } else {
        d.code_highlights matches Some(h) && h@ == highlights_of(parts)
    }
}

/// How a diagnostic reports hints: absent when there are none, else exactly
/// the suggestion messages, in order.
pub open spec fn hints_reported(d: Diagnostic, hints: Seq<String>) -> bool {
    if hints.len() == 0 {
        d.hints is None
    } else {
        d.hints matches Some(h) && h@ == hints
    }
}

/// What one reported diagnostic owes to the raw record it came from: the
/// message verbatim; the highlights exactly the in-order pairing of the
/// record's labels with one outcome per span lookup; the hints verbatim.
pub open spec fn reported_for(d: Diagnostic, rec: RawDiagnostic) -> bool {
    &&& d.message@ == rec.message@
    &&& exists|locs: Seq<Option<SourceLocation>>|
        locs.len() == rec.labels@.len() && #[trigger] highlights_reported(
            d,
            paired_labels(rec.labels@, locs),
        )
    &&& hints_reported(d, rec.hints@)
}

/// Clones a list of strings, keeping length and contents.
fn clone_strings(v: &Vec<String>) -> (r: Vec<String>)
    ensures
        r@ == v@,
{
    let mut out: Vec<String> = Vec::new();
    let mut idx: usize = 0;
    while idx < v.len()
        invariant
            idx <= v@.len(),
            out@ == v@.subrange(0, idx as int),
        decreases v@.len() - idx,
    {
        out.push(v[idx].clone());
        proof {
            assert(out@ =~= v@.subrange(0, idx + 1));
        }
        idx = idx + 1;
    }
    proof {
        assert(out@ =~= v@);
    }
    out
}

/// Looks every labeled span of a record up against the registered file, in
/// order: one outcome per label, absent where the span could not be resolved,
/// and a well-formed location where it could.
pub fn locate_label_spans(
    cm: &Lrc<SourceMap>,
    file: &Lrc<SourceFile>,
    labels: &Vec<RawLabel>,
) -> (r: Vec<Option<SourceLocation>>)
    ensures
        r@.len() == labels@.len(),
        forall|i: int|
            0 <= i < r@.len() ==> ((#[trigger] r@[i]) matches Some(loc) ==> loc.wf()),
{
    let mut out: Vec<Option<SourceLocation>> = Vec::new();
    let mut idx: usize = 0;
    while idx < labels.len()
        invariant
            idx <= labels@.len(),
            out@.len() == idx,
            forall|i: int|
                0 <= i < out@.len() ==> ((#[trigger] out@[i]) matches Some(loc) ==> loc.wf()),
        decreases labels@.len() - idx,
    {
        out.push(SourceLocation::from(cm, file, labels[idx].lo, labels[idx].hi));
        idx = idx + 1;
    }
    out
}

/// Pairs each label with the outcome of its span lookup, keeping exactly the
/// labels whose spans resolved, in order, each with its message.
pub fn pair_resolved_labels(labels: &Vec<RawLabel>, locs: &Vec<Option<SourceLocation>>) -> (r: Vec<
    (Option<String>, SourceLocation),
>)
    ensures
        r@ == paired_labels(labels@, locs@),
{
    let mut out: Vec<(Option<String>, SourceLocation)> = Vec::new();
    let mut idx: usize = 0;
    proof {
        assert(labels@.skip(0) =~= labels@);
        assert(locs@.skip(0) =~= locs@);
    }
    while idx < labels.len() && idx < locs.len()
        invariant
            idx <= labels@.len(),
            idx <= locs@.len(),
            paired_labels(labels@, locs@) == out@ + paired_labels(
                labels@.skip(idx as int),
                locs@.skip(idx as int),
            ),
        decreases labels@.len() - idx,
    {
        let ghost tail_labels = labels@.skip(idx as int);
        let ghost tail_locs = locs@.skip(idx as int);
        proof {
            assert(tail_labels.first() == labels@[idx as int]);
            assert(tail_locs.first() == locs@[idx as int]);
            assert(tail_labels.drop_first() =~= labels@.skip(idx + 1));
            assert(tail_locs.drop_first() =~= locs@.skip(idx + 1));
        }
        match &locs[idx] {
            None => {
                proof {
                    assert(paired_labels(tail_labels, tail_locs) == paired_labels(
                        labels@.skip(idx + 1),
                        locs@.skip(idx + 1),
                    ));
                }
            },
            Some(loc) => {
                let message: Option<String> = match &labels[idx].message {
                    None => None,
                    Some(m) => Some(m.clone()),
                };
                proof {
                    assert(message == labels@[idx as int].message);
                    assert(paired_labels(tail_labels, tail_locs) == seq![
                        (labels@[idx as int].message, locs@[idx as int]->Some_0),
                    ] + paired_labels(labels@.skip(idx + 1), locs@.skip(idx + 1)));
                }
                let entry = (message, *loc);
                out.push(entry);
                proof {
                    assert(out@ + paired_labels(labels@.skip(idx + 1), locs@.skip(idx + 1))
                        =~= paired_labels(labels@, locs@));
                }
            },
        }
        idx = idx + 1;
    }
    proof {
        assert(paired_labels(labels@.skip(idx as int), locs@.skip(idx as int)) =~= Seq::empty());
        assert(out@ + Seq::<(Option<String>, SourceLocation)>::empty() =~= out@);
    }
    out
}

/// Builds one reported diagnostic from its converted parts. An empty
/// highlight list or an empty hint list is reported as an absent field,
/// never as an empty one.
pub fn build_diagnostic(message: String, highlights: Vec<CodeHighlight>, hints: Vec<String>) -> (r:
    Diagnostic)
    ensures
        r.message == message,
        highlights@.len() == 0 ==> r.code_highlights is None,
        highlights@.len() > 0 ==> (r.code_highlights matches Some(h) && h@ == highlights@),
        hints@.len() == 0 ==> r.hints is None,
        hints@.len() > 0 ==> (r.hints matches Some(h) && h@ == hints@),
{
    let code_highlights: Option<Vec<CodeHighlight>> = if highlights.len() > 0 {
        Some(highlights)
    } else {
        None
    };
    let hints_field: Option<Vec<String>> = if hints.len() > 0 {
        Some(hints)
    } else {
        None
    };
    Diagnostic { message, code_highlights, hints: hints_field }
}

/// Turns resolved label parts into highlight entries, one for one and in
/// order.
pub fn highlights_from_parts(parts: Vec<(Option<String>, SourceLocation)>) -> (r: Vec<
    CodeHighlight,
>)
    ensures
        r@ == highlights_of(parts@),
{
    let ghost orig = parts@;
    let mut rest = parts;
    let mut out: Vec<CodeHighlight> = Vec::new();
    while rest.len() > 0
        invariant
            out@.len() + rest@.len() == orig.len(),
            rest@ == orig.subrange(out@.len() as int, orig.len() as int),
            forall|i: int|
                0 <= i < out@.len() ==> (#[trigger] out@[i]).message == orig[i].0 && out@[i].loc
                    == orig[i].1,
        decreases rest@.len(),
    {
        let part = rest.remove(0);
        out.push(CodeHighlight { message: part.0, loc: part.1 });
        proof {
            assert(rest@ =~= orig.subrange(out@.len() as int, orig.len() as int));
        }
    }
    proof {
        assert(out@ =~= highlights_of(orig));
    }
    out
}

/// Converts one raw error record into a reported diagnostic, exactly as
/// `reported_for` states: message verbatim, the in-order highlights of the
/// labels whose spans resolved, and the suggestion messages as hints.
pub fn diagnostic_from_record(cm: &Lrc<SourceMap>, file: &Lrc<SourceFile>, record: &RawDiagnostic)
    -> (r: Diagnostic)
    ensures
        reported_for(r, *record),
{
    let locs = locate_label_spans(cm, file, &record.labels);
    let parts = pair_resolved_labels(&record.labels, &locs);
    let ghost parts_seq = parts@;
    let highlights = highlights_from_parts(parts);
    let hints = clone_strings(&record.hints);
    let d = build_diagnostic(record.message.clone(), highlights, hints);
    proof {
        assert(highlights_reported(d, paired_labels(record.labels@, locs@)));
        assert(hints_reported(d, record.hints@));
    }
    d
}

/// Converts the drained records into reported diagnostics, one for one and
/// in emission order.
pub fn diagnostics_from_records(
    cm: &Lrc<SourceMap>,
    file: &Lrc<SourceFile>,
    records: &Vec<RawDiagnostic>,
) -> (r: Vec<Diagnostic>)
    ensures
        r@.len() == records@.len(),
        forall|i: int| 0 <= i < r@.len() ==> #[trigger] reported_for(r@[i], records@[i]),
{
    let mut out: Vec<Diagnostic> = Vec::new();
    let mut idx: usize = 0;
    while idx < records.len()
        invariant
            idx <= records@.len(),
            out@.len() == idx,
            forall|i: int| 0 <= i < out@.len() ==> #[trigger] reported_for(out@[i], records@[i]),
        decreases records@.len() - idx,
    {
        let converted = diagnostic_from_record(cm, file, &records[idx]);
        out.push(converted);
        idx = idx + 1;
    }
    out
}

} // verus!
