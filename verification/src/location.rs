//! The coordinate translator: re-bases raw position lookups into the
//! reporting convention (1-based lines, 1-based inclusive start and end
//! columns).

use vstd::prelude::*;

use crate::engine;
use swc_common::sync::Lrc;
use swc_common::SourceFile;
use swc_common::SourceMap;

verus! {

/// A source span in the reporting convention: lines are 1-based, and both the
/// start and the end column are 1-based and inclusive.
#[derive(Debug, Clone, Copy, PartialEq, Eq, Structural)]
pub struct SourceLocation {
    pub start_line: usize,
    pub start_col: usize,
    pub end_line: usize,
    pub end_col: usize,
}

impl SourceLocation {
    /// The invariant of every location this translator reports: lines are
    /// 1-based and ordered, and the start column is 1-based.
    pub open spec fn wf(self) -> bool {
        &&& 1 <= self.start_line <= self.end_line
        &&& 1 <= self.start_col
    }

    /// The fixed correction from the lookup convention to the reporting
    /// convention. The underlying lookup yields 1-based lines, 0-based display
    /// columns and exclusive end columns. For the start column, shifting
    /// 0-based to 1-based and exclusive to inclusive amounts to adding one;
    /// for the end column the two corrections cancel, so it is kept unchanged.
    pub fn from_line_cols(
        start_line: usize,
        start_col: usize,
        end_line: usize,
        end_col: usize,
    ) -> (r: SourceLocation)
        requires
            start_col < usize::MAX,
        ensures
            r.start_line == start_line,
            r.start_col == start_col + 1,
            r.end_line == end_line,
            r.end_col == end_col,
    {
        SourceLocation { start_line, start_col: start_col + 1, end_line, end_col }
    }

    /// Translates the byte-offset span `lo..hi` of a registered source file
    /// into a reported location, by looking both offsets up and applying the
    /// fixed correction of `from_line_cols`. Returns `None` when either
    /// offset cannot be resolved against the file, when the lookup falls
    /// outside the 1-based line convention (an empty file, or an offset
    /// before the file), or when the looked-up lines are out of order; every
    /// reported location therefore satisfies `wf`.
    pub fn from(cm: &Lrc<SourceMap>, file: &Lrc<SourceFile>, lo: u32, hi: u32) -> (r: Option<
        SourceLocation,
    >)
        ensures
            r matches Some(loc) ==> loc.wf(),
    {
        match engine::lookup_line_col(cm, file, lo) {
            None => None,
            Some(start) => match engine::lookup_line_col(cm, file, hi) {
                None => None,
                Some(end) => {
                    if 1 <= start.0 && start.0 <= end.0 {
                        Some(SourceLocation::from_line_cols(start.0, start.1, end.0, end.1))
                    } else {
                        None
                    }
                },
            },
        }
    }
}

/// Coordinate correctness for a single-line span: when the raw lookup places
/// a span of `len` characters on one line, starting at 0-based display column
/// `start_col` (so its exclusive end column is `start_col + len`), the
/// translated location starts at 1-based column `start_col + 1` and its
/// inclusive end column equals its start column plus `len - 1`.
pub proof fn lemma_single_line_span_coords(loc: SourceLocation, start_col: usize, len: usize)
    requires
        1 <= len,
        start_col + len <= usize::MAX,
        loc.start_col == start_col + 1,
        loc.end_col == start_col + len,
        loc.end_line == loc.start_line,
    ensures
        loc.end_col == loc.start_col + len - 1,
{
}

} // verus!
