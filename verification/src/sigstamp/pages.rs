//! The page range given on the command line.
use vstd::prelude::*;
use crate::docconv::pdf_ops::{page_range, scan_page_range, PageRangeErrorKind};
use crate::text::{dec, string_of, u64_to_dec};

verus! {

/// Message of a refused page range.
pub open spec fn range_message(kind: PageRangeErrorKind, detail: Seq<char>) -> Seq<char> {
    match kind {
        PageRangeErrorKind::InvalidStart => "Invalid page range start: '"@ + detail + "'"@,
        PageRangeErrorKind::InvalidEnd => "Invalid page range end: '"@ + detail + "'"@,
        PageRangeErrorKind::ZeroInRange => "Page numbers are 1-based; 0 is not valid"@,
        PageRangeErrorKind::ZeroPage => "Page numbers are 1-based; 0 is not valid"@,
        PageRangeErrorKind::StartAfterEnd(a, b) => "Page range start ("@ + dec(a as nat)
            + ") must be <= end ("@ + dec(b as nat) + ")"@,
        PageRangeErrorKind::InvalidPage => "Invalid page number: '"@ + detail + "'"@,
    }
}

/// Parses `"n"` or `"a-b"` (1-based, `a <= b`) into an inclusive page range.
pub fn parse_page_range(s: &str) -> (r: Result<(usize, usize), String>)
    ensures
        match page_range(s@, usize::MAX as nat) {
            Ok((a, b)) => r matches Ok((x, y)) && x == a && y == b,
            Err((kind, detail)) => r matches Err(m) && m@ == range_message(kind, detail),
        },
{
    match scan_page_range(s, usize::MAX as u64) {
        Ok((a, b)) => Ok((a as usize, b as usize)),
        Err(e) => {
            let m = match e.kind {
                PageRangeErrorKind::InvalidStart => {
                    let mut m = "Invalid page range start: '".to_owned();
                    m.append(e.detail.as_str());
                    m.append("'");
                    m
                },
                PageRangeErrorKind::InvalidEnd => {
                    let mut m = "Invalid page range end: '".to_owned();
                    m.append(e.detail.as_str());
                    m.append("'");
                    m
                },
                PageRangeErrorKind::ZeroInRange => "Page numbers are 1-based; 0 is not valid".to_owned(),
                PageRangeErrorKind::ZeroPage => "Page numbers are 1-based; 0 is not valid".to_owned(),
                PageRangeErrorKind::StartAfterEnd(a, b) => {
                    let mut m = "Page range start (".to_owned();
                    m.append(string_of(&u64_to_dec(a)).as_str());
                    m.append(") must be <= end (");
                    m.append(string_of(&u64_to_dec(b)).as_str());
                    m.append(")");
                    m
                },
                PageRangeErrorKind::InvalidPage => {
                    let mut m = "Invalid page number: '".to_owned();
                    m.append(e.detail.as_str());
                    m.append("'");
                    m
                },
            };
            Err(m)
        },
    }
}

} // verus!
