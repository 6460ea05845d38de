//! Page-range parsing and the metadata record of a PDF file.
use vstd::prelude::*;
use crate::text::{
    chars_of, dec, parse_unsigned, parse_unsigned_vec, split_once, split_once_vec, string_of, trim,
    trim_vec, u64_to_dec,
};

verus! {

/// Metadata read from a PDF's document-information dictionary.
#[derive(Debug, Default)]
pub struct PdfMetadata {
    pub page_count: u32,
    pub file_size: u64,
    pub title: Option<String>,
    pub author: Option<String>,
    pub creator: Option<String>,
    pub producer: Option<String>,
    pub creation_date: Option<String>,
    pub mod_date: Option<String>,
}

/// Why a page range was refused.
#[derive(Debug, Clone, Copy, PartialEq, Eq, Structural)]
pub enum PageRangeErrorKind {
    /// The part before `-` is not a page number.
    InvalidStart,
    /// The part after `-` is not a page number.
    InvalidEnd,
    /// One end of a range is page 0.
    ZeroInRange,
    /// The first page comes after the last.
    StartAfterEnd(u64, u64),
    /// A single page is not a number.
    InvalidPage,
    /// A single page is page 0.
    ZeroPage,
}

/// A refused page range: the reason and the text it is about (the piece that
/// failed to parse, or the whole trimmed range).
#[derive(Debug, Clone)]
pub struct PageRangeError {
    pub kind: PageRangeErrorKind,
    pub detail: String,
}

/// The text of a refused page range's error.
pub open spec fn range_error_message(kind: PageRangeErrorKind, detail: Seq<char>) -> Seq<char> {
    match kind {
        PageRangeErrorKind::InvalidStart => "Invalid start page: "@ + detail,
        PageRangeErrorKind::InvalidEnd => "Invalid end page: "@ + detail,
        PageRangeErrorKind::ZeroInRange => "Page numbers are 1-indexed; got: "@ + detail,
        PageRangeErrorKind::StartAfterEnd(a, b) => "Start page ("@ + dec(a as nat) + ") must be <= end page ("@
            + dec(b as nat) + ")"@,
        PageRangeErrorKind::InvalidPage => "Invalid page number: "@ + detail,
        PageRangeErrorKind::ZeroPage => "Page numbers are 1-indexed; got 0"@,
    }
}

impl PageRangeError {
    /// The error's text.
    pub fn message(&self) -> (r: String)
        ensures
            r@ == range_error_message(self.kind, self.detail@),
    {
        let (head, tail) = match self.kind {
            PageRangeErrorKind::InvalidStart => ("Invalid start page: ", self.detail.clone()),
            PageRangeErrorKind::InvalidEnd => ("Invalid end page: ", self.detail.clone()),
            PageRangeErrorKind::ZeroInRange => ("Page numbers are 1-indexed; got: ", self.detail.clone()),
            PageRangeErrorKind::StartAfterEnd(a, b) => {
                let mut t = string_of(&u64_to_dec(a));
                t.append(") must be <= end page (");
                t.append(string_of(&u64_to_dec(b)).as_str());
                t.append(")");
                ("Start page (", t)
            },
            PageRangeErrorKind::InvalidPage => ("Invalid page number: ", self.detail.clone()),
            PageRangeErrorKind::ZeroPage => ("Page numbers are 1-indexed; got 0", String::new()),
        };
        let mut m = head.to_owned();
        m.append(tail.as_str());
        proof {
            reveal_strlit("");
        }
        m
    }
}

/// Inclusive page range denoted by `s`, pages being numbers in `1..=max`
/// after trimming: `"n"` or `"a-b"` with `a <= b`.
pub open spec fn page_range(s: Seq<char>, max: nat) -> Result<
    (nat, nat),
    (PageRangeErrorKind, Seq<char>),
> {
    let t = trim(s);
    match split_once(t, '-') {
        Some((a, b)) => match (parse_unsigned(trim(a), max), parse_unsigned(trim(b), max)) {
            (None, _) => Err((PageRangeErrorKind::InvalidStart, a)),
            (Some(_), None) => Err((PageRangeErrorKind::InvalidEnd, b)),
            (Some(x), Some(y)) => if x == 0 || y == 0 {
                Err((PageRangeErrorKind::ZeroInRange, t))
            } else if x > y {
                Err((PageRangeErrorKind::StartAfterEnd(x as u64, y as u64), t))
            } else {
                Ok((x, y))
            },
        },
        None => match parse_unsigned(t, max) {
            None => Err((PageRangeErrorKind::InvalidPage, t)),
            Some(p) => if p == 0 {
                Err((PageRangeErrorKind::ZeroPage, t))
            } else {
                Ok((p, p))
            },
        },
    }
}

/// Parses a page range whose page numbers are at most `max`.
pub fn scan_page_range(s: &str, max: u64) -> (r: Result<(u64, u64), PageRangeError>)
    ensures
        match r {
            Ok((a, b)) => page_range(s@, max as nat) == Ok::<(nat, nat), (PageRangeErrorKind, Seq<char>)>((a as nat, b as nat)),
            Err(e) => page_range(s@, max as nat) == Err::<(nat, nat), (PageRangeErrorKind, Seq<char>)>((e.kind, e.detail@)),
        },
{
    let v = chars_of(s);
    let t = trim_vec(&v);
    match split_once_vec(&t, '-') {
        Some((a, b)) => {
            let ta = trim_vec(&a);
            let tb = trim_vec(&b);
            let start = match parse_unsigned_vec(&ta, max) {
                Some(x) => x,
                None => {
                    return Err(PageRangeError { kind: PageRangeErrorKind::InvalidStart, detail: string_of(&a) });
                },
            };
            let end = match parse_unsigned_vec(&tb, max) {
                Some(y) => y,
                None => {
                    return Err(PageRangeError { kind: PageRangeErrorKind::InvalidEnd, detail: string_of(&b) });
                },
            };
            if start == 0 || end == 0 {
                return Err(PageRangeError { kind: PageRangeErrorKind::ZeroInRange, detail: string_of(&t) });
            }
            if start > end {
                return Err(
                    PageRangeError {
                        kind: PageRangeErrorKind::StartAfterEnd(start, end),
                        detail: string_of(&t),
                    },
                );
            }
            Ok((start, end))
        },
        None => {
            match parse_unsigned_vec(&t, max) {
                Some(p) => {
                    if p == 0 {
                        Err(PageRangeError { kind: PageRangeErrorKind::ZeroPage, detail: string_of(&t) })
                    } else {
                        Ok((p, p))
                    }
                },
                None => Err(PageRangeError { kind: PageRangeErrorKind::InvalidPage, detail: string_of(&t) }),
            }
        },
    }
}

/// Parses a page-range string like `"1-5"` or `"3"` into an inclusive,
/// 1-indexed `(start, end)` pair of `u32` page numbers.
pub fn parse_page_range(s: &str) -> (r: Result<(u32, u32), PageRangeError>)
    ensures
        match r {
            Ok((a, b)) => page_range(s@, u32::MAX as nat) == Ok::<(nat, nat), (PageRangeErrorKind, Seq<char>)>((a as nat, b as nat)),
            Err(e) => page_range(s@, u32::MAX as nat) == Err::<(nat, nat), (PageRangeErrorKind, Seq<char>)>((e.kind, e.detail@)),
        },
{
    match scan_page_range(s, 0xffff_ffff) {
        Ok((a, b)) => Ok((a as u32, b as u32)),
        Err(e) => Err(e),
    }
}

/// Every accepted range is 1-indexed, ordered and within the bound.
pub proof fn lemma_page_range_bounds(s: Seq<char>, max: nat)
    requires
        page_range(s, max) is Ok,
    ensures
        ({
            let (a, b) = page_range(s, max)->Ok_0;
            1 <= a <= b <= max
        }),
{
}


/// The pages of a `total`-page document outside `start..=end`, ascending.
pub open spec fn pages_outside(start: int, end: int, total: int) -> Seq<u32>
    decreases total,
{
    if total <= 0 {
        Seq::empty()
    } else {
        pages_outside(start, end, total - 1) + if total < start || total > end {
            seq![total as u32]
        } else {
            Seq::empty()
        }
    }
}

pub open spec fn out_of_bounds_message(start: nat, end: nat, total: nat) -> Seq<char> {
    "Page range "@ + dec(start) + "-"@ + dec(end) + " is out of bounds (document has "@ + dec(total)
        + " pages)"@
}

fn dec_string(n: u32) -> (r: String)
    ensures
        r@ == dec(n as nat),
{
    string_of(&u64_to_dec(n as u64))
}

/// The pages to delete so that a `total`-page document keeps only pages
/// `start..=end`; an error where the range leaves the document.
pub fn split_plan(start: u32, end: u32, total: u32) -> (r: Result<Vec<u32>, String>)
    ensures
        match r {
            Ok(v) => 1 <= start && end <= total && v@ == pages_outside(start as int, end as int, total as int),
            Err(e) => (start < 1 || end > total) && e@ == out_of_bounds_message(
                start as nat,
                end as nat,
                total as nat,
            ),
        },
{
    if start < 1 || end > total {
        let mut e = "Page range ".to_owned();
        e.append(dec_string(start).as_str());
        e.append("-");
        e.append(dec_string(end).as_str());
        e.append(" is out of bounds (document has ");
        e.append(dec_string(total).as_str());
        e.append(" pages)");
        return Err(e);
    }
    let mut out: Vec<u32> = Vec::new();
    let mut n: u32 = 0;
    while n < total
        invariant
            n <= total,
            out@ == pages_outside(start as int, end as int, n as int),
        decreases total - n,
    {
        n = n + 1;
        if n < start || n > end {
            out.push(n);
        }
    }
    Ok(out)
}

pub open spec fn page_out_of_range_message(page: nat, total: nat) -> Seq<char> {
    "Page "@ + dec(page) + " out of range (document has "@ + dec(total) + " pages)"@
}

/// Checks a 1-based page number against a `total`-page document.
pub fn check_page(page: u32, total: u32) -> (r: Result<(), String>)
    ensures
        r is Ok <==> 1 <= page <= total,
        r matches Err(e) ==> e@ == page_out_of_range_message(page as nat, total as nat),
{
    if page < 1 || page > total {
        let mut e = "Page ".to_owned();
        e.append(dec_string(page).as_str());
        e.append(" out of range (document has ");
        e.append(dec_string(total).as_str());
        e.append(" pages)");
        Err(e)
    } else {
        Ok(())
    }
}

/// The sum of the first `k` object counts.
pub open spec fn id_offset(max_ids: Seq<u32>, k: int) -> int
    decreases k,
{
    if k <= 0 {
        0
    } else {
        id_offset(max_ids, k - 1) + max_ids[k - 1]
    }
}

/// When merging documents whose highest object ids are `max_ids`, the id
/// each document's objects are renumbered from: none for a document with
/// nothing before it, else one past all ids of the documents before it.
pub fn renumber_starts(max_ids: &Vec<u32>) -> (r: Vec<Option<u32>>)
    requires
        id_offset(max_ids@, max_ids@.len() as int) < u32::MAX,
    ensures
        r@.len() == max_ids@.len(),
        forall|k: int|
            0 <= k < r@.len() ==> r@[k] == (if id_offset(max_ids@, k) > 0 {
                Some((id_offset(max_ids@, k) + 1) as u32)
            } else {
                None
            }),
{
    let mut out: Vec<Option<u32>> = Vec::new();
    let mut offset: u32 = 0;
    let mut i: usize = 0;
    while i < max_ids.len()
        invariant
            i <= max_ids.len(),
            offset == id_offset(max_ids@, i as int),
            id_offset(max_ids@, max_ids@.len() as int) < u32::MAX,
            out@.len() == i,
            forall|k: int|
                0 <= k < i ==> out@[k] == (if id_offset(max_ids@, k) > 0 {
                    Some((id_offset(max_ids@, k) + 1) as u32)
                } else {
                    None
                }),
        decreases max_ids.len() - i,
    {
        proof {
            lemma_id_offset_monotone(max_ids@, i + 1, max_ids@.len() as int);
        }
        if offset > 0 {
            out.push(Some(offset + 1));
        } else {
            out.push(None);
        }
        offset = offset + max_ids[i];
        i = i + 1;
    }
    out
}

proof fn lemma_id_offset_monotone(s: Seq<u32>, a: int, b: int)
    requires
        0 <= a <= b <= s.len(),
    ensures
        id_offset(s, a) <= id_offset(s, b),
    decreases b - a,
{
    if a < b {
        lemma_id_offset_monotone(s, a, b - 1);
    }
}

} // verus!
