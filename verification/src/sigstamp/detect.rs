//! Recognition of text labels that mark a signature field.
use vstd::prelude::*;
use crate::text::{
    chars_of, contains, contains_str, starts_with, starts_with_str, to_lowercase, unicode_lower, vec_contains,
    vec_eq, all_ascii, ascii_lower};

verus! {

/// Whether a lowercase label marks a signature field: it mentions a
/// signature, starts with "sign", mentions authorisation, names one of the
/// standard form blocks 30, 31, 21 or 22, or names the contracting officer
/// together with "sign".
pub open spec fn sig_label(lower: Seq<char>) -> bool {
    ||| contains(lower, "signature"@)
    ||| contains(lower, "signed"@)
    ||| starts_with(lower, "sign"@)
    ||| contains(lower, "authorized"@)
    ||| contains(lower, "block 30"@)
    ||| contains(lower, "block 31"@)
    ||| contains(lower, "block 21"@)
    ||| contains(lower, "block 22"@)
    ||| (contains(lower, "contracting officer"@) && contains(lower, "sign"@))
}

/// The rest of `is_sig_label` once the label is lowercased.
pub fn is_sig_label_lowercase(lower: &str) -> (r: bool)
    ensures
        r == sig_label(lower@),
{
    let v = chars_of(lower);
    contains_str(&v, "signature") || contains_str(&v, "signed") || starts_with_str(&v, "sign")
        || contains_str(&v, "authorized") || contains_str(&v, "block 30") || contains_str(
        &v,
        "block 31",
    ) || contains_str(&v, "block 21") || contains_str(&v, "block 22") || (contains_str(
        &v,
        "contracting officer",
    ) && contains_str(&v, "sign"))
}

/// Whether a text label looks like a signature field, ignoring case.
pub fn is_sig_label(label: &str) -> (r: bool)
    ensures
        r == sig_label(unicode_lower(label@)),
        all_ascii(label@) ==> r == sig_label(ascii_lower(label@)),
{
    let lower = to_lowercase(label);
    is_sig_label_lowercase(lower.as_str())
}


/// The phrases that mark a signature on a page whose text is scanned.
pub open spec fn sig_keywords() -> Seq<Seq<char>> {
    seq![
        "Signature"@,
        "SIGNATURE"@,
        "Authorized Signature"@,
        "Authorized Representative"@,
        "Sign Here"@,
        "Offeror Signature"@,
        "Contractor Signature"@,
        "Block 30"@,
        "Block 31"@,
        "Contracting Officer Signature"@
    ]
}

fn keyword_list() -> (r: Vec<&'static str>)
    ensures
        r@.map_values(|k: &str| k@) == sig_keywords(),
{
    let v: Vec<&'static str> = vec![
        "Signature",
        "SIGNATURE",
        "Authorized Signature",
        "Authorized Representative",
        "Sign Here",
        "Offeror Signature",
        "Contractor Signature",
        "Block 30",
        "Block 31",
        "Contracting Officer Signature",
    ];
    assert(v@.map_values(|k: &str| k@) =~= sig_keywords());
    v
}

/// The hits after scanning one page (at position `page`, text `text`) for
/// the keywords `kws` in order: a keyword found in the text is added unless
/// the same page already has it.
pub open spec fn add_page_hits(
    found: Seq<(int, Seq<char>)>,
    page: int,
    text: Seq<char>,
    kws: Seq<Seq<char>>,
) -> Seq<(int, Seq<char>)>
    decreases kws.len(),
{
    if kws.len() == 0 {
        found
    } else {
        let f = add_page_hits(found, page, text, kws.drop_last());
        let kw = kws.last();
        if contains(text, kw) && !f.contains((page, kw)) {
            f.push((page, kw))
        } else {
            f
        }
    }
}

/// Page position of a page number: one less, but not below zero.
pub open spec fn page_position(n: u32) -> int {
    if n == 0 {
        0
    } else {
        n - 1
    }
}

/// The keyword hits of the pages (page number and text), page by page.
pub open spec fn keyword_scan(pages: Seq<(u32, Seq<char>)>) -> Seq<(int, Seq<char>)>
    decreases pages.len(),
{
    if pages.len() == 0 {
        Seq::empty()
    } else {
        add_page_hits(
            keyword_scan(pages.drop_last()),
            page_position(pages.last().0),
            pages.last().1,
            sig_keywords(),
        )
    }
}

pub open spec fn hit_views(v: Seq<(usize, String)>) -> Seq<(int, Seq<char>)> {
    v.map_values(|h: (usize, String)| (h.0 as int, h.1@))
}

pub open spec fn page_views(v: Seq<(u32, String)>) -> Seq<(u32, Seq<char>)> {
    v.map_values(|p: (u32, String)| (p.0, p.1@))
}

fn has_hit(found: &Vec<(usize, String)>, page: usize, kw: &Vec<char>) -> (r: bool)
    ensures
        r == hit_views(found@).contains((page as int, kw@)),
{
    let mut i: usize = 0;
    while i < found.len()
        invariant
            i <= found.len(),
            forall|j: int| 0 <= j < i ==> hit_views(found@)[j] != (page as int, kw@),
        decreases found.len() - i,
    {
        if found[i].0 == page && vec_eq(&chars_of(found[i].1.as_str()), kw) {
            assert(hit_views(found@)[i as int] == (page as int, kw@));
            return true;
        }
        i = i + 1;
    }
    proof {
        if hit_views(found@).contains((page as int, kw@)) {
            let j = choose|j: int|
                0 <= j < hit_views(found@).len() && hit_views(found@)[j] == (page as int, kw@);
            assert(false);
        }
    }
    false
}

/// Scans the text of each page (page number, text) for the signature
/// keywords; each hit is the page position and the keyword, once per page.
pub fn keyword_hits(pages: &Vec<(u32, String)>) -> (r: Vec<(usize, String)>)
    ensures
        hit_views(r@) == keyword_scan(page_views(pages@)),
{
    let kws = keyword_list();
    let mut out: Vec<(usize, String)> = Vec::new();
    let mut p: usize = 0;
    while p < pages.len()
        invariant
            p <= pages.len(),
            kws@.map_values(|k: &str| k@) == sig_keywords(),
            hit_views(out@) == keyword_scan(page_views(pages@).take(p as int)),
        decreases pages.len() - p,
    {
        let ghost pv = page_views(pages@).take(p + 1);
        assert(pv.drop_last() =~= page_views(pages@).take(p as int));
        let n = pages[p].0;
        let idx: usize = if n == 0 {
            0
        } else {
            (n - 1) as usize
        };
        let text = chars_of(pages[p].1.as_str());
        let ghost start = hit_views(out@);
        let mut k: usize = 0;
        while k < kws.len()
            invariant
                k <= kws.len(),
                kws@.map_values(|k: &str| k@) == sig_keywords(),
                text@ == pages@[p as int].1@,
                idx as int == page_position(pages@[p as int].0),
                hit_views(out@) == add_page_hits(start, idx as int, text@, sig_keywords().take(k as int)),
            decreases kws.len() - k,
        {
            let kw = chars_of(kws[k]);
            let ghost ks = sig_keywords().take(k + 1);
            assert(ks.drop_last() =~= sig_keywords().take(k as int));
            assert(ks.last() == kw@);
            if vec_contains(&text, &kw) && !has_hit(&out, idx, &kw) {
                let ghost before = hit_views(out@);
                out.push((idx, string_of_kw(kws[k])));
                assert(hit_views(out@) =~= before.push((idx as int, kw@)));
            }
            k = k + 1;
        }
        assert(sig_keywords().take(kws.len() as int) =~= sig_keywords());
        assert(pv.last() == (n, pages@[p as int].1@));
        p = p + 1;
    }
    assert(page_views(pages@).take(pages.len() as int) =~= page_views(pages@));
    out
}

fn string_of_kw(k: &str) -> (r: String)
    ensures
        r@ == k@,
{
    k.to_owned()
}

} // verus!
