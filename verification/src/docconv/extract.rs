//! Table-like rows in extracted PDF text, and the joining of page texts.
use vstd::prelude::*;
use crate::text::{
    chars_of, join, join_vec, lines, lines_vec, str_views, string_of, strings_of, trim, trim_vec,
    views,
};

verus! {

/// Cells of the rest `s` of a line given the scan state: the cell being read,
/// whether the previous character was a space, whether that space closed a
/// cell (a gap of two or more spaces is being skipped), and the cells
/// already finished. A tab ends a cell; so does a run of two or more spaces.
/// Cells are trimmed.
pub open spec fn cells_from(
    s: Seq<char>,
    cur: Seq<char>,
    prev_space: bool,
    in_gap: bool,
    done: Seq<Seq<char>>,
) -> Seq<Seq<char>>
    decreases s.len(),
{
    if s.len() == 0 {
        done.push(trim(cur))
    } else {
        let c = s[0];
        let rest = s.drop_first();
        if c == '\t' {
            cells_from(rest, Seq::empty(), false, false, done.push(trim(cur)))
        } else if c == ' ' {
            if in_gap {
                cells_from(rest, cur, true, true, done)
            } else if prev_space {
                cells_from(rest, Seq::empty(), true, true, done.push(trim(cur)))
            } else {
                cells_from(rest, cur.push(' '), true, false, done)
            }
        } else {
            cells_from(rest, cur.push(c), false, false, done)
        }
    }
}

/// Cells of a line split on tabs or runs of two or more spaces.
pub open spec fn cells(line: Seq<char>) -> Seq<Seq<char>> {
    cells_from(line, Seq::empty(), false, false, Seq::empty())
}

fn split_cells_vec(v: &Vec<char>) -> (r: Vec<Vec<char>>)
    ensures
        views(r@) == cells(v@),
{
    let mut out: Vec<Vec<char>> = Vec::new();
    let mut cur: Vec<char> = Vec::new();
    let mut prev_space = false;
    let mut in_gap = false;
    let mut i: usize = 0;
    assert(v@.skip(0) =~= v@);
    assert(views(out@) =~= Seq::<Seq<char>>::empty());
    assert(cur@ =~= Seq::<char>::empty());
    while i < v.len()
        invariant
            i <= v.len(),
            cells(v@) == cells_from(v@.skip(i as int), cur@, prev_space, in_gap, views(out@)),
        decreases v.len() - i,
    {
        let c = v[i];
        let ghost rest = v@.skip(i as int);
        assert(rest[0] == c);
        assert(rest.drop_first() =~= v@.skip(i + 1));
        if c == '\t' {
            let t = trim_vec(&cur);
            let ghost before = views(out@);
            out.push(t);
            assert(views(out@) =~= before.push(trim(cur@)));
            cur = Vec::new();
            assert(cur@ =~= Seq::<char>::empty());
            prev_space = false;
            in_gap = false;
        } else if c == ' ' {
            if in_gap {
            } else if prev_space {
                let t = trim_vec(&cur);
                let ghost before = views(out@);
                out.push(t);
                assert(views(out@) =~= before.push(trim(cur@)));
                cur = Vec::new();
                assert(cur@ =~= Seq::<char>::empty());
                in_gap = true;
            } else {
                cur.push(' ');
            }
            prev_space = true;
        } else {
            cur.push(c);
            prev_space = false;
            in_gap = false;
        }
        i = i + 1;
    }
    assert(v@.skip(i as int) =~= Seq::<char>::empty());
    let t = trim_vec(&cur);
    let ghost before = views(out@);
    out.push(t);
    assert(views(out@) =~= before.push(trim(cur@)));
    out
}

/// Splits a line on tab characters or runs of two or more spaces.
pub fn split_cells(line: &str) -> (r: Vec<String>)
    ensures
        str_views(r@) == cells(line@),
{
    let v = chars_of(line);
    let c = split_cells_vec(&v);
    strings_of(&c)
}

/// The non-empty pieces of `s`, in order.
pub open spec fn non_empty(s: Seq<Seq<char>>) -> Seq<Seq<char>>
    decreases s.len(),
{
    if s.len() == 0 {
        Seq::empty()
    } else if s.last().len() > 0 {
        non_empty(s.drop_last()).push(s.last())
    } else {
        non_empty(s.drop_last())
    }
}

/// Table rows among the given lines: each non-blank trimmed line whose
/// non-empty cells number two or more gives those cells.
pub open spec fn table_rows(ls: Seq<Seq<char>>) -> Seq<Seq<Seq<char>>>
    decreases ls.len(),
{
    if ls.len() == 0 {
        Seq::empty()
    } else {
        let prev = table_rows(ls.drop_last());
        let l = trim(ls.last());
        let cs = non_empty(cells(l));
        if l.len() > 0 && cs.len() >= 2 {
            prev.push(cs)
        } else {
            prev
        }
    }
}

fn non_empty_vec(v: Vec<Vec<char>>) -> (r: Vec<Vec<char>>)
    ensures
        views(r@) == non_empty(views(v@)),
{
    let ghost s = views(v@);
    let mut out: Vec<Vec<char>> = Vec::new();
    let mut i: usize = 0;
    assert(s.take(0) =~= Seq::<Seq<char>>::empty());
    while i < v.len()
        invariant
            i <= v.len(),
            s == views(v@),
            views(out@) == non_empty(s.take(i as int)),
        decreases v.len() - i,
    {
        let ghost t = s.take(i + 1);
        assert(t.drop_last() =~= s.take(i as int));
        assert(t.last() == v@[i as int]@);
        if v[i].len() > 0 {
            let ghost before = views(out@);
            out.push(v[i].clone());
            assert(views(out@) =~= before.push(v@[i as int]@));
        }
        i = i + 1;
    }
    assert(s.take(v.len() as int) =~= s);
    out
}

pub open spec fn table_views(rows: Seq<Vec<String>>) -> Seq<Seq<Seq<char>>> {
    rows.map_values(|r: Vec<String>| str_views(r@))
}

/// Table-like rows of a document's text: lines whose trimmed text splits into
/// two or more non-empty cells.
pub fn extract_tables(all_text: &str) -> (r: Vec<Vec<String>>)
    ensures
        table_views(r@) == table_rows(lines(all_text@)),
{
    let v = chars_of(all_text);
    let ls = lines_vec(&v);
    let ghost lv = views(ls@);
    let mut rows: Vec<Vec<String>> = Vec::new();
    let mut i: usize = 0;
    assert(lv.take(0) =~= Seq::<Seq<char>>::empty());
    assert(table_views(rows@) =~= Seq::<Seq<Seq<char>>>::empty());
    while i < ls.len()
        invariant
            i <= ls.len(),
            lv == views(ls@),
            table_views(rows@) == table_rows(lv.take(i as int)),
        decreases ls.len() - i,
    {
        let ghost t = lv.take(i + 1);
        assert(t.drop_last() =~= lv.take(i as int));
        assert(t.last() == ls@[i as int]@);
        let l = trim_vec(&ls[i]);
        if l.len() > 0 {
            let cs = non_empty_vec(split_cells_vec(&l));
            if cs.len() >= 2 {
                let row = strings_of(&cs);
                let ghost before = table_views(rows@);
                rows.push(row);
                assert(table_views(rows@) =~= before.push(views(cs@)));
            }
        }
        i = i + 1;
    }
    assert(lv.take(ls.len() as int) =~= lv);
    rows
}

/// The text of all pages, in order, separated by blank lines.
pub fn extract_all_text(pages: &Vec<String>) -> (r: String)
    ensures
        r@ == join(str_views(pages@), "\n\n"@),
{
    let parts = crate::text::char_vecs_of(pages);
    let sep = chars_of("\n\n");
    let j = join_vec(&parts, &sep);
    string_of(&j)
}

} // verus!
