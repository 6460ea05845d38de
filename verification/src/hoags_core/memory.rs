//! Bookkeeping of the field memory: how labels are keyed and which source
//! documents a remembered field was seen in.
use vstd::prelude::*;
use crate::text::{chars_of, str_views, string_of, to_lowercase, trim, trim_str, unicode_lower, vec_eq, all_ascii, ascii_lower};

verus! {

/// Row counts of the field-memory tables.
#[derive(Debug)]
pub struct MemoryStats {
    pub total_fields: i64,
    pub total_templates: i64,
}

/// The key under which a field label is remembered: trimmed, then lower-cased.
pub fn normalize_label(label: &str) -> (r: String)
    ensures
        r@ == unicode_lower(trim(label@)),
        all_ascii(trim(label@)) ==> r@ == ascii_lower(trim(label@)),
{
    let t = string_of(&trim_str(label));
    to_lowercase(t.as_str())
}

/// The list of source documents after seeing the field in `source`: the
/// source is appended unless it is already listed.
pub open spec fn with_source(pdfs: Seq<Seq<char>>, source: Seq<char>) -> Seq<Seq<char>> {
    if pdfs.contains(source) {
        pdfs
    } else {
        pdfs.push(source)
    }
}

/// Each source document is listed once: recording a source keeps the list
/// free of repeats, keeps every earlier source, and lists the new one.
pub proof fn lemma_sources_listed_once(pdfs: Seq<Seq<char>>, source: Seq<char>)
    requires
        pdfs.no_duplicates(),
    ensures
        with_source(pdfs, source).no_duplicates(),
        with_source(pdfs, source).contains(source),
        forall|p: Seq<char>| pdfs.contains(p) ==> with_source(pdfs, source).contains(p),
{
    if !pdfs.contains(source) {
        let u = pdfs.push(source);
        assert(u[pdfs.len() as int] == source);
        assert forall|p: Seq<char>| pdfs.contains(p) implies u.contains(p) by {
            let i = choose|i: int| 0 <= i < pdfs.len() && pdfs[i] == p;
            assert(u[i] == p);
        }
    }
}

/// Records that a field was seen in `source`.
pub fn merge_source_pdfs(pdfs: Vec<String>, source: &str) -> (r: Vec<String>)
    ensures
        str_views(r@) == with_source(str_views(pdfs@), source@),
{
    let src = chars_of(source);
    let mut i: usize = 0;
    while i < pdfs.len()
        invariant
            i <= pdfs.len(),
            src@ == source@,
            forall|j: int| 0 <= j < i ==> pdfs@[j]@ != source@,
        decreases pdfs.len() - i,
    {
        let cur = chars_of(pdfs[i].as_str());
        if vec_eq(&cur, &src) {
            proof {
                assert(str_views(pdfs@)[i as int] == source@);
            }
            return pdfs;
        }
        i = i + 1;
    }
    proof {
        assert(!str_views(pdfs@).contains(source@)) by {
            if str_views(pdfs@).contains(source@) {
                let j = choose|j: int| 0 <= j < str_views(pdfs@).len() && str_views(pdfs@)[j] == source@;
                assert(pdfs@[j]@ == source@);
            }
        }
    }
    let mut out = pdfs;
    let ghost before = out@;
    out.push(source.to_owned());
    assert(str_views(out@) =~= str_views(before).push(source@));
    out
}

} // verus!
