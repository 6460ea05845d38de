//! Reshaping sheets: merging two sheets' columns and rows, the distinct
//! values of a column, and evenly spaced samples of rows.
use vstd::prelude::*;
use crate::clauseguard::analyzer::{dedup, dedup_vec};
use crate::sheetwise::filter::{column_index, column_position, lemma_column_position};
use crate::sheetwise::reader::{Column, Sheet};
use crate::text::{char_vecs_of, chars_of, eq_ignore_ascii_case, eq_ignore_case, str_views, strings_of, views};

verus! {

/// The names of the columns, in order.
pub open spec fn column_names(cols: Seq<Column>) -> Seq<Seq<char>> {
    cols.map_values(|c: Column| c.name@)
}

/// Whether `names` holds `n` up to ASCII case.
pub open spec fn has_name(names: Seq<Seq<char>>, n: Seq<char>) -> bool {
    exists|i: int| 0 <= i < names.len() && eq_ignore_case(#[trigger] names[i], n)
}

/// The columns of a merge: those of the first sheet, then each column of
/// the second whose name (up to ASCII case) is not there yet.
pub open spec fn merged_names(a: Seq<Seq<char>>, b: Seq<Seq<char>>) -> Seq<Seq<char>>
    decreases b.len(),
{
    if b.len() == 0 {
        a
    } else {
        let m = merged_names(a, b.drop_last());
        if has_name(m, b.last()) {
            m
        } else {
            m.push(b.last())
        }
    }
}

fn names_of(cols: &Vec<Column>) -> (r: Vec<Vec<char>>)
    ensures
        views(r@) == column_names(cols@),
{
    let mut out: Vec<Vec<char>> = Vec::new();
    let mut i: usize = 0;
    while i < cols.len()
        invariant
            i <= cols.len(),
            views(out@) == column_names(cols@).take(i as int),
        decreases cols.len() - i,
    {
        let ghost before = views(out@);
        out.push(chars_of(cols[i].name.as_str()));
        assert(views(out@) =~= before.push(cols@[i as int].name@));
        assert(column_names(cols@).take(i + 1) =~= column_names(cols@).take(i as int).push(
            cols@[i as int].name@,
        ));
        i = i + 1;
    }
    assert(column_names(cols@).take(cols.len() as int) =~= column_names(cols@));
    out
}

fn has_name_exec(names: &Vec<Vec<char>>, n: &Vec<char>) -> (r: bool)
    ensures
        r == has_name(views(names@), n@),
{
    let mut i: usize = 0;
    while i < names.len()
        invariant
            i <= names.len(),
            forall|j: int| 0 <= j < i ==> !eq_ignore_case(#[trigger] views(names@)[j], n@),
        decreases names.len() - i,
    {
        if eq_ignore_ascii_case(&names[i], n) {
            assert(eq_ignore_case(views(names@)[i as int], n@));
            return true;
        }
        i = i + 1;
    }
    false
}

/// The column names of two merged sheets.
pub fn merge_column_names(first: &Sheet, second: &Sheet) -> (r: Vec<String>)
    ensures
        str_views(r@) == merged_names(column_names(first.columns@), column_names(second.columns@)),
{
    let mut names = names_of(&first.columns);
    let b = names_of(&second.columns);
    let ghost a = views(names@);
    let mut i: usize = 0;
    while i < b.len()
        invariant
            i <= b.len(),
            views(names@) == merged_names(a, views(b@).take(i as int)),
        decreases b.len() - i,
    {
        let ghost t = views(b@).take(i + 1);
        assert(t.drop_last() =~= views(b@).take(i as int));
        assert(t.last() == b@[i as int]@);
        if !has_name_exec(&names, &b[i]) {
            let ghost before = views(names@);
            let w = b[i].clone();
            assert(w@ =~= b@[i as int]@);
            names.push(w);
            assert(views(names@) =~= before.push(t.last()));
        }
        i = i + 1;
    }
    assert(views(b@).take(b.len() as int) =~= views(b@));
    strings_of(&names)
}

/// A row laid against `names`: under each name, the cell of the row's first
/// column of that name (up to ASCII case), or empty where there is none.
pub open spec fn aligned_row(row: Seq<String>, cols: Seq<Column>, names: Seq<Seq<char>>) -> Seq<Seq<char>> {
    Seq::new(
        names.len(),
        |j: int|
            {
                let p = column_position(cols, names[j]);
                if p >= 0 {
                    row[p]@
                } else {
                    Seq::empty()
                }
            },
    )
}

/// The sheet's rows laid against the column names `names`.
pub fn align_rows(sheet: &Sheet, names: &Vec<String>) -> (r: Vec<Vec<String>>)
    requires
        sheet.aligned(),
    ensures
        r@.len() == sheet.rows@.len(),
        forall|i: int|
            0 <= i < r@.len() ==> str_views(#[trigger] r@[i]@) == aligned_row(
                sheet.rows@[i]@,
                sheet.columns@,
                str_views(names@),
            ),
{
    let mut idx: Vec<Option<usize>> = Vec::new();
    let mut j: usize = 0;
    while j < names.len()
        invariant
            j <= names.len(),
            idx@.len() == j,
            forall|k: int|
                0 <= k < j ==> match #[trigger] idx@[k] {
                    Some(p) => column_position(sheet.columns@, names@[k]@) == p,
                    None => column_position(sheet.columns@, names@[k]@) == -1,
                },
        decreases names.len() - j,
    {
        idx.push(column_index(sheet, names[j].as_str()));
        j = j + 1;
    }
    let mut out: Vec<Vec<String>> = Vec::new();
    let mut i: usize = 0;
    while i < sheet.rows.len()
        invariant
            i <= sheet.rows.len(),
            sheet.aligned(),
            idx@.len() == names@.len(),
            forall|k: int|
                0 <= k < names@.len() ==> match #[trigger] idx@[k] {
                    Some(p) => column_position(sheet.columns@, names@[k]@) == p,
                    None => column_position(sheet.columns@, names@[k]@) == -1,
                },
            out@.len() == i,
            forall|q: int|
                0 <= q < i ==> str_views(#[trigger] out@[q]@) == aligned_row(
                    sheet.rows@[q]@,
                    sheet.columns@,
                    str_views(names@),
                ),
        decreases sheet.rows.len() - i,
    {
        let row = &sheet.rows[i];
        assert(row@.len() == sheet.columns@.len());
        let mut cells: Vec<String> = Vec::new();
        let mut k: usize = 0;
        while k < idx.len()
            invariant
                k <= idx.len(),
                idx@.len() == names@.len(),
                row@.len() == sheet.columns@.len(),
                row == &sheet.rows@[i as int],
                forall|m: int|
                    0 <= m < names@.len() ==> match #[trigger] idx@[m] {
                        Some(p) => column_position(sheet.columns@, names@[m]@) == p,
                        None => column_position(sheet.columns@, names@[m]@) == -1,
                    },
                str_views(cells@) == aligned_row(row@, sheet.columns@, str_views(names@)).take(k as int),
            decreases idx.len() - k,
        {
            proof {
                lemma_column_position(sheet.columns@, names@[k as int]@);
            }
            let cell = match idx[k] {
                Some(p) => row[p].clone(),
                None => String::new(),
            };
            let ghost before = str_views(cells@);
            cells.push(cell);
            assert(str_views(cells@) =~= before.push(
                aligned_row(row@, sheet.columns@, str_views(names@))[k as int],
            ));
            assert(aligned_row(row@, sheet.columns@, str_views(names@)).take(k + 1) =~= aligned_row(
                row@,
                sheet.columns@,
                str_views(names@),
            ).take(k as int).push(aligned_row(row@, sheet.columns@, str_views(names@))[k as int]));
            k = k + 1;
        }
        assert(aligned_row(row@, sheet.columns@, str_views(names@)).take(idx.len() as int) =~= aligned_row(
            row@,
            sheet.columns@,
            str_views(names@),
        ));
        out.push(cells);
        i = i + 1;
    }
    out
}

/// The cells of column `c`, row by row.
pub open spec fn column_cells(rows: Seq<Vec<String>>, c: int) -> Seq<Seq<char>> {
    rows.map_values(|r: Vec<String>| r@[c]@)
}

/// The distinct values of the column named `column`, in order of first
/// appearance; `None` where the sheet has no such column.
pub fn unique_values(sheet: &Sheet, column: &str) -> (r: Option<Vec<String>>)
    requires
        sheet.aligned(),
    ensures
        ({
            let c = column_position(sheet.columns@, column@);
            match r {
                Some(v) => c >= 0 && str_views(v@) == dedup(column_cells(sheet.rows@, c)),
                None => c == -1,
            }
        }),
{
    proof {
        lemma_column_position(sheet.columns@, column@);
    }
    let c = match column_index(sheet, column) {
        Some(c) => c,
        None => return None,
    };
    let mut cells: Vec<Vec<char>> = Vec::new();
    let mut i: usize = 0;
    while i < sheet.rows.len()
        invariant
            i <= sheet.rows.len(),
            sheet.aligned(),
            c < sheet.columns@.len(),
            views(cells@) == column_cells(sheet.rows@, c as int).take(i as int),
        decreases sheet.rows.len() - i,
    {
        assert(sheet.rows@[i as int]@.len() == sheet.columns@.len());
        let ghost before = views(cells@);
        cells.push(chars_of(sheet.rows[i][c].as_str()));
        assert(views(cells@) =~= before.push(sheet.rows@[i as int]@[c as int]@));
        assert(column_cells(sheet.rows@, c as int).take(i + 1) =~= column_cells(sheet.rows@, c as int).take(
            i as int,
        ).push(sheet.rows@[i as int]@[c as int]@));
        i = i + 1;
    }
    assert(column_cells(sheet.rows@, c as int).take(sheet.rows.len() as int) =~= column_cells(
        sheet.rows@,
        c as int,
    ));
    Some(strings_of(&dedup_vec(&cells)))
}

/// Positions of `n` rows sampled from `total` at an even stride: every row
/// where `n` covers them all, else rows `0, s, 2s, ...` with `s = total / n`.
pub fn sample_positions(total: usize, n: usize) -> (r: Vec<usize>)
    requires
        n > 0 || n >= total,
    ensures
        n >= total ==> r@.len() == total && forall|i: int| 0 <= i < total ==> r@[i] == i,
        n < total ==> r@.len() == n && forall|i: int| 0 <= i < n ==> r@[i] == i * (total / n),
        forall|i: int| 0 <= i < r@.len() ==> r@[i] < total,
{
    let mut out: Vec<usize> = Vec::new();
    if n >= total {
        let mut i: usize = 0;
        while i < total
            invariant
                i <= total,
                out@.len() == i,
                forall|k: int| 0 <= k < i ==> out@[k] == k,
            decreases total - i,
        {
            out.push(i);
            i = i + 1;
        }
        return out;
    }
    let step = total / n;
    let mut i: usize = 0;
    while i < n
        invariant
            0 < n < total,
            step == total / n,
            i <= n,
            out@.len() == i,
            forall|k: int| 0 <= k < i ==> out@[k] == k * step && out@[k] < total,
        decreases n - i,
    {
        proof {
            assert(step >= 1) by (nonlinear_arith)
                requires
                    step == total / n,
                    0 < n < total,
            ;
            assert((i + 1) * step <= n * step) by (nonlinear_arith)
                requires
                    i + 1 <= n,
                    step >= 0,
            ;
            assert(n * step <= total) by (nonlinear_arith)
                requires
                    step == total / n,
                    n > 0,
            ;
            assert(i * step + step == (i + 1) * step) by (nonlinear_arith);
        }
        out.push(i * step);
        i = i + 1;
    }
    out
}

} // verus!
