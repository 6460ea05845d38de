//! Row filters: a column, a comparison and a value, combined with AND.
use vstd::prelude::*;
use crate::sheetwise::reader::{Sheet, Column};
use crate::text::{
    ascii_lower, chars_of, contains, eq_ignore_case, eq_ignore_ascii_case, eq_str, lower_vec,
    starts_with, vec_contains, vec_starts_with,
};

verus! {

/// Supported comparison operators for filter expressions.
#[derive(Debug, Clone, Copy, PartialEq, Eq, Structural)]
pub enum FilterOp {
    Eq,
    Ne,
    Gt,
    Lt,
    Gte,
    Lte,
    Contains,
    StartsWith,
}

/// The operator named by `n` (compared in lowercase).
pub open spec fn op_named(n: Seq<char>) -> Option<FilterOp> {
    let l = ascii_lower(n);
    if l == "eq"@ {
        Some(FilterOp::Eq)
    } else if l == "ne"@ {
        Some(FilterOp::Ne)
    } else if l == "gt"@ {
        Some(FilterOp::Gt)
    } else if l == "lt"@ {
        Some(FilterOp::Lt)
    } else if l == "gte"@ {
        Some(FilterOp::Gte)
    } else if l == "lte"@ {
        Some(FilterOp::Lte)
    } else if l == "contains"@ {
        Some(FilterOp::Contains)
    } else if l == "starts_with"@ || l == "startswith"@ {
        Some(FilterOp::StartsWith)
    } else {
        None
    }
}

impl FilterOp {
    /// Parses an operator name, ignoring ASCII case.
    pub fn from_str(s: &str) -> (r: Option<FilterOp>)
        ensures
            r == op_named(s@),
    {
        let l = lower_vec(&chars_of(s));
        if eq_str(&l, "eq") {
            Some(FilterOp::Eq)
        } else if eq_str(&l, "ne") {
            Some(FilterOp::Ne)
        } else if eq_str(&l, "gt") {
            Some(FilterOp::Gt)
        } else if eq_str(&l, "lt") {
            Some(FilterOp::Lt)
        } else if eq_str(&l, "gte") {
            Some(FilterOp::Gte)
        } else if eq_str(&l, "lte") {
            Some(FilterOp::Lte)
        } else if eq_str(&l, "contains") {
            Some(FilterOp::Contains)
        } else if eq_str(&l, "starts_with") || eq_str(&l, "startswith") {
            Some(FilterOp::StartsWith)
        } else {
            None
        }
    }

    /// Whether the operator compares numbers where both sides are numbers.
    pub fn is_ordering(&self) -> (r: bool)
        ensures
            r == (*self is Gt || *self is Lt || *self is Gte || *self is Lte),
    {
        match self {
            FilterOp::Gt | FilterOp::Lt | FilterOp::Gte | FilterOp::Lte => true,
            _ => false,
        }
    }
}

/// A single filter expression: column op value.
#[derive(Debug, Clone)]
pub struct Filter {
    pub column: String,
    pub op: FilterOp,
    pub value: String,
}

/// Lexicographic order of strings by character code.
pub open spec fn lex_lt(a: Seq<char>, b: Seq<char>) -> bool
    decreases a.len(),
{
    if b.len() == 0 {
        false
    } else if a.len() == 0 {
        true
    } else if a[0] != b[0] {
        (a[0] as u32) < (b[0] as u32)
    } else {
        lex_lt(a.drop_first(), b.drop_first())
    }
}

/// Whether a cell passes a filter. The ordering operators use `numeric`,
/// the outcome of comparing the cell and the value as numbers where both are
/// numbers, and otherwise compare the strings lexicographically, ignoring
/// ASCII case.
pub open spec fn cell_passes(op: FilterOp, cell: Seq<char>, value: Seq<char>, numeric: Option<bool>) -> bool {
    match op {
        FilterOp::Eq => eq_ignore_case(cell, value),
        FilterOp::Ne => !eq_ignore_case(cell, value),
        FilterOp::Contains => contains(ascii_lower(cell), ascii_lower(value)),
        FilterOp::StartsWith => starts_with(ascii_lower(cell), ascii_lower(value)),
        _ => match numeric {
            Some(b) => b,
            None => match op {
                FilterOp::Gt => lex_lt(ascii_lower(value), ascii_lower(cell)),
                FilterOp::Lt => lex_lt(ascii_lower(cell), ascii_lower(value)),
                FilterOp::Gte => !lex_lt(ascii_lower(cell), ascii_lower(value)),
                _ => !lex_lt(ascii_lower(value), ascii_lower(cell)),
            },
        },
    }
}

fn lex_lt_vec(a: &Vec<char>, b: &Vec<char>) -> (r: bool)
    ensures
        r == lex_lt(a@, b@),
{
    let mut i: usize = 0;
    assert(a@.skip(0) =~= a@ && b@.skip(0) =~= b@);
    while i < a.len() && i < b.len() && a[i] == b[i]
        invariant
            i <= a.len(),
            i <= b.len(),
            lex_lt(a@, b@) == lex_lt(a@.skip(i as int), b@.skip(i as int)),
        decreases a.len() - i,
    {
        assert(a@.skip(i as int).drop_first() =~= a@.skip(i + 1));
        assert(b@.skip(i as int).drop_first() =~= b@.skip(i + 1));
        i = i + 1;
    }
    if i == b.len() {
        false
    } else if i == a.len() {
        true
    } else {
        assert(a@.skip(i as int)[0] == a@[i as int]);
        assert(b@.skip(i as int)[0] == b@[i as int]);
        (a[i] as u32) < (b[i] as u32)
    }
}

/// Whether a cell passes a filter (see `cell_passes`).
pub fn cell_matches(cell: &str, filter: &Filter, numeric: Option<bool>) -> (r: bool)
    ensures
        r == cell_passes(filter.op, cell@, filter.value@, numeric),
{
    let c = chars_of(cell);
    let v = chars_of(filter.value.as_str());
    match filter.op {
        FilterOp::Eq => eq_ignore_ascii_case(&c, &v),
        FilterOp::Ne => !eq_ignore_ascii_case(&c, &v),
        FilterOp::Contains => vec_contains(&lower_vec(&c), &lower_vec(&v)),
        FilterOp::StartsWith => vec_starts_with(&lower_vec(&c), &lower_vec(&v)),
        op => match numeric {
            Some(b) => b,
            None => {
                let (lc, lv) = (lower_vec(&c), lower_vec(&v));
                match op {
                    FilterOp::Gt => lex_lt_vec(&lv, &lc),
                    FilterOp::Lt => lex_lt_vec(&lc, &lv),
                    FilterOp::Gte => !lex_lt_vec(&lc, &lv),
                    _ => !lex_lt_vec(&lv, &lc),
                }
            },
        },
    }
}

/// Position of the first column whose name equals `name` ignoring ASCII
/// case, or -1.
pub open spec fn column_position(cols: Seq<Column>, name: Seq<char>) -> int
    decreases cols.len(),
{
    if cols.len() == 0 {
        -1
    } else {
        let f = column_position(cols.drop_last(), name);
        if f >= 0 {
            f
        } else if eq_ignore_case(cols.last().name@, name) {
            cols.len() - 1
        } else {
            -1
        }
    }
}

pub proof fn lemma_column_position(cols: Seq<Column>, name: Seq<char>)
    ensures
        -1 <= column_position(cols, name) < cols.len(),
    decreases cols.len(),
{
    if cols.len() > 0 {
        lemma_column_position(cols.drop_last(), name);
    }
}

proof fn lemma_column_position_prefix(cols: Seq<Column>, name: Seq<char>, k: int)
    requires
        0 <= k <= cols.len(),
        column_position(cols.take(k), name) >= 0,
    ensures
        column_position(cols, name) == column_position(cols.take(k), name),
    decreases cols.len() - k,
{
    if k < cols.len() {
        assert(cols.drop_last().take(k) =~= cols.take(k));
        lemma_column_position_prefix(cols.drop_last(), name, k);
    } else {
        assert(cols.take(k) =~= cols);
    }
}

/// Index of the column named `name`, ignoring ASCII case.
pub fn column_index(sheet: &Sheet, name: &str) -> (r: Option<usize>)
    ensures
        match r {
            Some(i) => column_position(sheet.columns@, name@) == i,
            None => column_position(sheet.columns@, name@) == -1,
        },
{
    let key = chars_of(name);
    let mut i: usize = 0;
    while i < sheet.columns.len()
        invariant
            i <= sheet.columns.len(),
            key@ == name@,
            column_position(sheet.columns@.take(i as int), name@) == -1,
        decreases sheet.columns.len() - i,
    {
        let ghost t = sheet.columns@.take(i + 1);
        assert(t.drop_last() =~= sheet.columns@.take(i as int));
        let n = chars_of(sheet.columns[i].name.as_str());
        if eq_ignore_ascii_case(&n, &key) {
            proof {
                lemma_column_position_prefix(sheet.columns@, name@, i + 1);
            }
            return Some(i);
        }
        i = i + 1;
    }
    assert(sheet.columns@.take(sheet.columns.len() as int) =~= sheet.columns@);
    None
}

/// Indices, in order, of the candidate rows whose cell in column `col`
/// passes the filter; `numeric[i]` is the numeric outcome for row `i`.
pub open spec fn passing(
    cands: Seq<usize>,
    rows: Seq<Vec<String>>,
    col: int,
    f: Filter,
    numeric: Seq<Option<bool>>,
) -> Seq<usize>
    decreases cands.len(),
{
    if cands.len() == 0 {
        Seq::empty()
    } else {
        let prev = passing(cands.drop_last(), rows, col, f, numeric);
        let r = cands.last() as int;
        if cell_passes(f.op, rows[r]@[col]@, f.value@, numeric[r]) {
            prev.push(cands.last())
        } else {
            prev
        }
    }
}

/// The indices `0..n`.
pub open spec fn all_rows(n: nat) -> Seq<usize> {
    Seq::new(n, |i: int| i as usize)
}

fn keep_passing(
    cands: &Vec<usize>,
    sheet: &Sheet,
    col: usize,
    filter: &Filter,
    numeric: &Vec<Option<bool>>,
) -> (r: Vec<usize>)
    requires
        sheet.aligned(),
        col < sheet.columns@.len(),
        numeric@.len() == sheet.rows@.len(),
        forall|i: int| 0 <= i < cands@.len() ==> cands@[i] < sheet.rows@.len(),
    ensures
        r@ == passing(cands@, sheet.rows@, col as int, *filter, numeric@),
        forall|i: int| 0 <= i < r@.len() ==> r@[i] < sheet.rows@.len(),
{
    let mut out: Vec<usize> = Vec::new();
    let mut j: usize = 0;
    while j < cands.len()
        invariant
            j <= cands.len(),
            sheet.aligned(),
            col < sheet.columns@.len(),
            numeric@.len() == sheet.rows@.len(),
            forall|i: int| 0 <= i < cands@.len() ==> cands@[i] < sheet.rows@.len(),
            out@ == passing(cands@.take(j as int), sheet.rows@, col as int, *filter, numeric@),
            forall|i: int| 0 <= i < out@.len() ==> out@[i] < sheet.rows@.len(),
        decreases cands.len() - j,
    {
        let ghost t = cands@.take(j + 1);
        assert(t.drop_last() =~= cands@.take(j as int));
        let r = cands[j];
        assert(sheet.rows@[r as int]@.len() == sheet.columns@.len());
        if cell_matches(sheet.rows[r][col].as_str(), filter, numeric[r]) {
            out.push(r);
        }
        j = j + 1;
    }
    assert(cands@.take(cands.len() as int) =~= cands@);
    out
}

/// Indices of the rows that pass a filter, in order; none where the sheet
/// has no such column. `numeric[i]` is the outcome of the numeric comparison
/// for row `i` (`None` where the cell or the value is not a number).
pub fn apply_filter(sheet: &Sheet, filter: &Filter, numeric: &Vec<Option<bool>>) -> (r: Vec<usize>)
    requires
        sheet.aligned(),
        numeric@.len() == sheet.rows@.len(),
    ensures
        ({
            let c = column_position(sheet.columns@, filter.column@);
            if c < 0 {
                r@.len() == 0
            } else {
                r@ == passing(all_rows(sheet.rows@.len()), sheet.rows@, c, *filter, numeric@)
            }
        }),
{
    proof {
        lemma_column_position(sheet.columns@, filter.column@);
    }
    let col = match column_index(sheet, filter.column.as_str()) {
        Some(i) => i,
        None => {
            return Vec::new();
        },
    };
    let mut all: Vec<usize> = Vec::new();
    let mut i: usize = 0;
    while i < sheet.rows.len()
        invariant
            i <= sheet.rows.len(),
            all@ == all_rows(i as nat),
        decreases sheet.rows.len() - i,
    {
        all.push(i);
        assert(all@ =~= all_rows((i + 1) as nat));
        i = i + 1;
    }
    keep_passing(&all, sheet, col, filter, numeric)
}

/// Rows passing every filter from `k` on, starting from `cands`; none as
/// soon as a filter names a missing column.
pub open spec fn chain(
    cands: Seq<usize>,
    sheet: Sheet,
    filters: Seq<Filter>,
    numeric: Seq<Vec<Option<bool>>>,
    k: nat,
) -> Seq<usize>
    decreases filters.len() - k,
{
    if k >= filters.len() {
        cands
    } else {
        let c = column_position(sheet.columns@, filters[k as int].column@);
        if c < 0 {
            Seq::empty()
        } else {
            chain(passing(cands, sheet.rows@, c, filters[k as int], numeric[k as int]@), sheet, filters, numeric, k + 1)
        }
    }
}

/// Indices of the rows that pass all the filters, in order (all rows when
/// there are none; none where a filter names a missing column).
/// `numeric[k][i]` is the numeric outcome of filter `k` for row `i`.
pub fn apply_filters(sheet: &Sheet, filters: &[Filter], numeric: &Vec<Vec<Option<bool>>>) -> (r: Vec<usize>)
    requires
        sheet.aligned(),
        numeric@.len() == filters@.len(),
        forall|k: int| 0 <= k < numeric@.len() ==> (#[trigger] numeric@[k])@.len() == sheet.rows@.len(),
    ensures
        r@ == chain(all_rows(sheet.rows@.len()), *sheet, filters@, numeric@, 0),
{
    let mut cands: Vec<usize> = Vec::new();
    let mut i: usize = 0;
    while i < sheet.rows.len()
        invariant
            i <= sheet.rows.len(),
            cands@ == all_rows(i as nat),
        decreases sheet.rows.len() - i,
    {
        cands.push(i);
        assert(cands@ =~= all_rows((i + 1) as nat));
        i = i + 1;
    }
    let mut k: usize = 0;
    while k < filters.len()
        invariant
            k <= filters.len(),
            sheet.aligned(),
            numeric@.len() == filters@.len(),
            forall|q: int| 0 <= q < numeric@.len() ==> (#[trigger] numeric@[q])@.len() == sheet.rows@.len(),
            forall|q: int| 0 <= q < cands@.len() ==> cands@[q] < sheet.rows@.len(),
            chain(all_rows(sheet.rows@.len()), *sheet, filters@, numeric@, 0) == chain(
                cands@,
                *sheet,
                filters@,
                numeric@,
                k as nat,
            ),
        decreases filters.len() - k,
    {
        proof {
            lemma_column_position(sheet.columns@, filters@[k as int].column@);
        }
        let col = match column_index(sheet, filters[k].column.as_str()) {
            Some(c) => c,
            None => {
                return Vec::new();
            },
        };
        cands = keep_passing(&cands, sheet, col, &filters[k], &numeric[k]);
        k = k + 1;
    }
    cands
}


/// Why the filter options of the command line were refused.
#[derive(Debug, Clone, PartialEq, Eq)]
pub enum FilterArgError {
    /// The operator name is not known.
    UnknownOperator(String),
    /// `--op` was given without `--value`.
    MissingValue,
}

/// Resolves the operator and value of a filter from the command line: the
/// shorthands `--gt`, `--lt`, `--eq`, `--contains` win in that order, else
/// the named operator with `--value`.
pub fn resolve_filter_args(
    op: &str,
    gt: Option<String>,
    lt: Option<String>,
    eq: Option<String>,
    contains_value: Option<String>,
    value: Option<String>,
) -> (r: Result<(FilterOp, String), FilterArgError>)
    ensures
        gt is Some ==> (r matches Ok((o, v)) && o == FilterOp::Gt && v@ == gt->Some_0@),
        gt is None && lt is Some ==> (r matches Ok((o, v)) && o == FilterOp::Lt && v@ == lt->Some_0@),
        gt is None && lt is None && eq is Some ==> (r matches Ok((o, v)) && o == FilterOp::Eq && v@
            == eq->Some_0@),
        gt is None && lt is None && eq is None && contains_value is Some ==> (r matches Ok((o, v))
            && o == FilterOp::Contains && v@ == contains_value->Some_0@),
        gt is None && lt is None && eq is None && contains_value is None ==> match op_named(op@) {
            None => r matches Err(FilterArgError::UnknownOperator(n)) && n@ == op@,
            Some(o) => match value {
                None => r matches Err(FilterArgError::MissingValue),
                Some(v) => r matches Ok((o2, v2)) && o2 == o && v2@ == v@,
            },
        },
{
    if let Some(v) = gt {
        return Ok((FilterOp::Gt, v));
    }
    if let Some(v) = lt {
        return Ok((FilterOp::Lt, v));
    }
    if let Some(v) = eq {
        return Ok((FilterOp::Eq, v));
    }
    if let Some(v) = contains_value {
        return Ok((FilterOp::Contains, v));
    }
    match FilterOp::from_str(op) {
        None => Err(FilterArgError::UnknownOperator(op.to_owned())),
        Some(o) => match value {
            None => Err(FilterArgError::MissingValue),
            Some(v) => Ok((o, v)),
        },
    }
}

/// How rows are printed.
#[derive(Debug, Clone, Copy, PartialEq, Eq, Structural)]
pub enum OutputFormat {
    Json,
    Csv,
    Table,
}

/// The output format named by `s` (ignoring ASCII case); a table for any
/// other name.
pub fn output_format(s: &str) -> (r: OutputFormat)
    ensures
        r == (if ascii_lower(s@) == "json"@ {
            OutputFormat::Json
        } else if ascii_lower(s@) == "csv"@ {
            OutputFormat::Csv
        } else {
            OutputFormat::Table
        }),
{
    let l = lower_vec(&chars_of(s));
    if eq_str(&l, "json") {
        OutputFormat::Json
    } else if eq_str(&l, "csv") {
        OutputFormat::Csv
    } else {
        OutputFormat::Table
    }
}

/// Whether row `r` passes filter `f` whose column is at `col`.
pub open spec fn row_passes(rows: Seq<Vec<String>>, r: usize, col: int, f: Filter, numeric: Seq<Option<bool>>) -> bool {
    cell_passes(f.op, rows[r as int]@[col]@, f.value@, numeric[r as int])
}

/// Row positions in strictly increasing order.
pub open spec fn increasing(s: Seq<usize>) -> bool {
    forall|i: int, j: int| 0 <= i < j < s.len() ==> s[i] < s[j]
}

proof fn lemma_passing_order(cands: Seq<usize>, rows: Seq<Vec<String>>, col: int, f: Filter, numeric: Seq<Option<bool>>)
    requires
        increasing(cands),
    ensures
        increasing(passing(cands, rows, col, f, numeric)),
        forall|i: int| 0 <= i < passing(cands, rows, col, f, numeric).len() ==> cands.contains(
            #[trigger] passing(cands, rows, col, f, numeric)[i],
        ),
    decreases cands.len(),
{
    if cands.len() > 0 {
        let d = cands.drop_last();
        assert(increasing(d)) by {
            assert forall|i: int, j: int| 0 <= i < j < d.len() implies d[i] < d[j] by {
                assert(d[i] == cands[i] && d[j] == cands[j]);
            }
        }
        lemma_passing_order(d, rows, col, f, numeric);
        let p = passing(d, rows, col, f, numeric);
        assert forall|i: int| 0 <= i < p.len() implies cands.contains(#[trigger] p[i]) by {
            let j = choose|j: int| 0 <= j < d.len() && d[j] == p[i];
            assert(cands[j] == p[i]);
        }
        assert forall|i: int| 0 <= i < p.len() implies p[i] < cands.last() by {
            let j = choose|j: int| 0 <= j < d.len() && d[j] == p[i];
            assert(cands[j] == p[i]);
        }
        let q = passing(cands, rows, col, f, numeric);
        assert forall|i: int| 0 <= i < q.len() implies cands.contains(#[trigger] q[i]) by {
            if i == p.len() {
                assert(cands[cands.len() - 1] == q[i]);
            } else {
                assert(q[i] == p[i]);
            }
        }
    }
}

/// Filtering keeps the order of the rows: the positions a chain of filters
/// keeps increase, and each was a candidate.
pub proof fn lemma_filters_keep_order(
    cands: Seq<usize>,
    sheet: Sheet,
    filters: Seq<Filter>,
    numeric: Seq<Vec<Option<bool>>>,
    k: nat,
)
    requires
        increasing(cands),
    ensures
        increasing(chain(cands, sheet, filters, numeric, k)),
        forall|i: int| 0 <= i < chain(cands, sheet, filters, numeric, k).len() ==> cands.contains(
            #[trigger] chain(cands, sheet, filters, numeric, k)[i],
        ),
    decreases filters.len() - k,
{
    if k < filters.len() {
        let c = column_position(sheet.columns@, filters[k as int].column@);
        if c >= 0 {
            let next = passing(cands, sheet.rows@, c, filters[k as int], numeric[k as int]@);
            lemma_passing_order(cands, sheet.rows@, c, filters[k as int], numeric[k as int]@);
            lemma_filters_keep_order(next, sheet, filters, numeric, k + 1);
            let r = chain(cands, sheet, filters, numeric, k);
            assert forall|i: int| 0 <= i < r.len() implies cands.contains(#[trigger] r[i]) by {
                assert(next.contains(r[i]));
                let j = choose|j: int| 0 <= j < next.len() && next[j] == r[i];
                assert(cands.contains(next[j]));
            }
        }
    }
}

/// All row positions `0..n` are in increasing order.
pub proof fn lemma_all_rows_increasing(n: nat)
    requires
        n <= usize::MAX,
    ensures
        increasing(all_rows(n)),
{
    assert forall|i: int, j: int| 0 <= i < j < all_rows(n).len() implies all_rows(n)[i] < all_rows(n)[j] by {
        assert(all_rows(n)[i] == i as usize && all_rows(n)[j] == j as usize);
    }
}

/// Whether row `r` passes every filter from the `k`-th on.
pub open spec fn passes_from(sheet: Sheet, filters: Seq<Filter>, numeric: Seq<Vec<Option<bool>>>, k: nat, r: usize) -> bool {
    forall|q: int|
        k <= q < filters.len() ==> row_passes(
            sheet.rows@,
            r,
            column_position(sheet.columns@, filters[q].column@),
            #[trigger] filters[q],
            numeric[q]@,
        )
}

proof fn lemma_passing_is_filter(cands: Seq<usize>, rows: Seq<Vec<String>>, col: int, f: Filter, numeric: Seq<Option<bool>>)
    ensures
        passing(cands, rows, col, f, numeric) == cands.filter(|r: usize| row_passes(rows, r, col, f, numeric)),
    decreases cands.len(),
{
    reveal_with_fuel(Seq::filter, 1);
    if cands.len() > 0 {
        lemma_passing_is_filter(cands.drop_last(), rows, col, f, numeric);
    }
}

proof fn lemma_filter_twice(s: Seq<usize>, p: spec_fn(usize) -> bool, q: spec_fn(usize) -> bool)
    ensures
        s.filter(p).filter(q) == s.filter(|x: usize| p(x) && q(x)),
    decreases s.len(),
{
    reveal_with_fuel(Seq::filter, 1);
    if s.len() > 0 {
        lemma_filter_twice(s.drop_last(), p, q);
        let t = s.drop_last().filter(p);
        if p(s.last()) {
            assert(t.push(s.last()).drop_last() =~= t);
        }
    }
}

proof fn lemma_filter_all(s: Seq<usize>, p: spec_fn(usize) -> bool)
    requires
        forall|x: usize| #[trigger] p(x),
    ensures
        s.filter(p) == s,
    decreases s.len(),
{
    reveal_with_fuel(Seq::filter, 1);
    if s.len() > 0 {
        lemma_filter_all(s.drop_last(), p);
        assert(s.drop_last().push(s.last()) =~= s);
    }
}

/// When every filter names a column, chaining the filters keeps exactly the
/// candidates that pass all of them, in their order: the AND of the filters.
pub proof fn lemma_chain_is_and(
    cands: Seq<usize>,
    sheet: Sheet,
    filters: Seq<Filter>,
    numeric: Seq<Vec<Option<bool>>>,
    k: nat,
)
    requires
        k <= filters.len(),
        forall|q: int| k <= q < filters.len() ==> column_position(sheet.columns@, (#[trigger] filters[q]).column@) >= 0,
    ensures
        chain(cands, sheet, filters, numeric, k) == cands.filter(
            |r: usize| passes_from(sheet, filters, numeric, k, r),
        ),
    decreases filters.len() - k,
{
    if k == filters.len() {
        lemma_filter_all(cands, |r: usize| passes_from(sheet, filters, numeric, k, r));
    } else {
        let f = filters[k as int];
        let c = column_position(sheet.columns@, f.column@);
        let p = |r: usize| row_passes(sheet.rows@, r, c, f, numeric[k as int]@);
        let rest = |r: usize| passes_from(sheet, filters, numeric, (k + 1) as nat, r);
        lemma_passing_is_filter(cands, sheet.rows@, c, f, numeric[k as int]@);
        lemma_chain_is_and(passing(cands, sheet.rows@, c, f, numeric[k as int]@), sheet, filters, numeric, (k + 1) as nat);
        lemma_filter_twice(cands, p, rest);
        let both = |x: usize| p(x) && rest(x);
        let all = |r: usize| passes_from(sheet, filters, numeric, k, r);
        assert forall|x: usize| #[trigger] both(x) == all(x) by {
            if both(x) {
                assert forall|q: int| k <= q < filters.len() implies row_passes(
                    sheet.rows@,
                    x,
                    column_position(sheet.columns@, filters[q].column@),
                    #[trigger] filters[q],
                    numeric[q]@,
                ) by {
                    if q > k {
                        assert(rest(x));
                    }
                }
            }
            if all(x) {
                assert(row_passes(
                    sheet.rows@,
                    x,
                    column_position(sheet.columns@, filters[k as int].column@),
                    filters[k as int],
                    numeric[k as int]@,
                ));
            }
        }
        assert(both =~= all);
    }
}


/// A filter that names no column of the sheet empties the chain, wherever
/// it stands in it.
pub proof fn lemma_chain_missing_column(
    cands: Seq<usize>,
    sheet: Sheet,
    filters: Seq<Filter>,
    numeric: Seq<Vec<Option<bool>>>,
    k: nat,
    q: int,
)
    requires
        k <= q < filters.len(),
        column_position(sheet.columns@, filters[q].column@) < 0,
    ensures
        chain(cands, sheet, filters, numeric, k) == Seq::<usize>::empty(),
    decreases filters.len() - k,
{
    let c = column_position(sheet.columns@, filters[k as int].column@);
    if c >= 0 {
        lemma_chain_missing_column(
            passing(cands, sheet.rows@, c, filters[k as int], numeric[k as int]@),
            sheet,
            filters,
            numeric,
            (k + 1) as nat,
            q,
        );
    }
}

/// What `apply_filters` keeps: every row when there is no filter; no row
/// when some filter names a missing column; otherwise exactly the rows that
/// pass every filter (AND), in the sheet's order.
pub proof fn lemma_apply_filters_and(sheet: Sheet, filters: Seq<Filter>, numeric: Seq<Vec<Option<bool>>>)
    ensures
        filters.len() == 0 ==> chain(all_rows(sheet.rows@.len()), sheet, filters, numeric, 0) == all_rows(
            sheet.rows@.len(),
        ),
        (exists|q: int| 0 <= q < filters.len() && column_position(sheet.columns@, (#[trigger] filters[q]).column@) < 0)
            ==> chain(all_rows(sheet.rows@.len()), sheet, filters, numeric, 0) == Seq::<usize>::empty(),
        (forall|q: int| 0 <= q < filters.len() ==> column_position(sheet.columns@, (#[trigger] filters[q]).column@) >= 0)
            ==> chain(all_rows(sheet.rows@.len()), sheet, filters, numeric, 0) == all_rows(
            sheet.rows@.len(),
        ).filter(|r: usize| passes_from(sheet, filters, numeric, 0, r)),
{
    let n = sheet.rows@.len();
    if exists|q: int| 0 <= q < filters.len() && column_position(sheet.columns@, (#[trigger] filters[q]).column@) < 0 {
        let q = choose|q: int| 0 <= q < filters.len() && column_position(sheet.columns@, (#[trigger] filters[q]).column@) < 0;
        lemma_chain_missing_column(all_rows(n), sheet, filters, numeric, 0, q);
    } else {
        lemma_chain_is_and(all_rows(n), sheet, filters, numeric, 0);
    }
}


/// The operator names and the operators they select, in one table.
pub open spec fn op_table() -> Seq<(Seq<char>, FilterOp)> {
    seq![
        ("eq"@, FilterOp::Eq),
        ("ne"@, FilterOp::Ne),
        ("gt"@, FilterOp::Gt),
        ("lt"@, FilterOp::Lt),
        ("gte"@, FilterOp::Gte),
        ("lte"@, FilterOp::Lte),
        ("contains"@, FilterOp::Contains),
        ("starts_with"@, FilterOp::StartsWith),
        ("startswith"@, FilterOp::StartsWith),
    ]
}

/// Each operator name, in any case, selects its own operator; names not in
/// the table select none.
pub proof fn lemma_op_names(s: Seq<char>)
    ensures
        forall|i: int| 0 <= i < op_table().len() && ascii_lower(s) == (#[trigger] op_table()[i]).0 ==> op_named(s)
            == Some(op_table()[i].1),
        (forall|i: int| 0 <= i < op_table().len() ==> ascii_lower(s) != (#[trigger] op_table()[i]).0) ==> op_named(
            s,
        ) is None,
{
    reveal_strlit("eq");
    reveal_strlit("ne");
    reveal_strlit("gt");
    reveal_strlit("lt");
    reveal_strlit("gte");
    reveal_strlit("lte");
    reveal_strlit("contains");
    reveal_strlit("starts_with");
    reveal_strlit("startswith");
    lemma_op_names_differ();
    let l = ascii_lower(s);
    assert(op_table()[0] == ("eq"@, FilterOp::Eq));
    assert(op_table()[1] == ("ne"@, FilterOp::Ne));
    assert(op_table()[2] == ("gt"@, FilterOp::Gt));
    assert(op_table()[3] == ("lt"@, FilterOp::Lt));
    assert(op_table()[4] == ("gte"@, FilterOp::Gte));
    assert(op_table()[5] == ("lte"@, FilterOp::Lte));
    assert(op_table()[6] == ("contains"@, FilterOp::Contains));
    assert(op_table()[7] == ("starts_with"@, FilterOp::StartsWith));
    assert(op_table()[8] == ("startswith"@, FilterOp::StartsWith));
}

/// The operator names are pairwise different.
proof fn lemma_op_names_differ()
    ensures
        "eq"@ != "ne"@,
        "eq"@ != "gt"@,
        "eq"@ != "lt"@,
        "eq"@ != "gte"@,
        "eq"@ != "lte"@,
        "eq"@ != "contains"@,
        "eq"@ != "starts_with"@,
        "eq"@ != "startswith"@,
        "ne"@ != "gt"@,
        "ne"@ != "lt"@,
        "ne"@ != "gte"@,
        "ne"@ != "lte"@,
        "ne"@ != "contains"@,
        "ne"@ != "starts_with"@,
        "ne"@ != "startswith"@,
        "gt"@ != "lt"@,
        "gt"@ != "gte"@,
        "gt"@ != "lte"@,
        "gt"@ != "contains"@,
        "gt"@ != "starts_with"@,
        "gt"@ != "startswith"@,
        "lt"@ != "gte"@,
        "lt"@ != "lte"@,
        "lt"@ != "contains"@,
        "lt"@ != "starts_with"@,
        "lt"@ != "startswith"@,
        "gte"@ != "lte"@,
        "gte"@ != "contains"@,
        "gte"@ != "starts_with"@,
        "gte"@ != "startswith"@,
        "lte"@ != "contains"@,
        "lte"@ != "starts_with"@,
        "lte"@ != "startswith"@,
        "contains"@ != "starts_with"@,
        "contains"@ != "startswith"@,
        "starts_with"@ != "startswith"@,
{
    reveal_strlit("eq");
    reveal_strlit("ne");
    reveal_strlit("gt");
    reveal_strlit("lt");
    reveal_strlit("gte");
    reveal_strlit("lte");
    reveal_strlit("contains");
    reveal_strlit("starts_with");
    reveal_strlit("startswith");
    assert("eq"@.len() == 2 && "eq"@[0] == 'e');
    assert("ne"@.len() == 2 && "ne"@[0] == 'n');
    assert("gt"@.len() == 2 && "gt"@[0] == 'g');
    assert("lt"@.len() == 2 && "lt"@[0] == 'l');
    assert("gte"@.len() == 3 && "gte"@[0] == 'g');
    assert("lte"@.len() == 3 && "lte"@[0] == 'l');
    assert("contains"@.len() == 8 && "contains"@[0] == 'c');
    assert("starts_with"@.len() == 11 && "starts_with"@[0] == 's');
    assert("startswith"@.len() == 10 && "startswith"@[0] == 's');
    assert("starts_with"@[6] == '_' && "startswith"@[6] == 'w');
}

/// Different names select different operators, except the two spellings of
/// `starts_with`: so `lte` and `lt` are told apart.
pub proof fn lemma_op_names_distinct(a: Seq<char>, b: Seq<char>)
    requires
        op_named(a) is Some,
        op_named(a) == op_named(b),
        op_named(a) != Some(FilterOp::StartsWith),
    ensures
        ascii_lower(a) == ascii_lower(b),
{
}

/// Where no numeric comparison applies, the inclusive operators keep a cell
/// equal to the value and the strict ones drop it.
pub proof fn lemma_inclusive_ops(cell: Seq<char>)
    ensures
        cell_passes(FilterOp::Lte, cell, cell, None),
        cell_passes(FilterOp::Gte, cell, cell, None),
        !cell_passes(FilterOp::Lt, cell, cell, None),
        !cell_passes(FilterOp::Gt, cell, cell, None),
    decreases cell.len(),
{
    lemma_lex_irreflexive(ascii_lower(cell));
}

proof fn lemma_lex_irreflexive(a: Seq<char>)
    ensures
        !lex_lt(a, a),
    decreases a.len(),
{
    if a.len() > 0 {
        lemma_lex_irreflexive(a.drop_first());
    }
}

} // verus!
