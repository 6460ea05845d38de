//! Delimiter detection, column-type inference and the sheet record.
use vstd::prelude::*;
use crate::text::{
    ascii_lower, chars_of, has_char, is_digit, parse_integer, parse_integer_vec, str_views,
    string_of, trim, trim_vec, utf8_len, vec_has_char, lower_vec, eq_str, lines, lines_vec,
};

verus! {

/// Column data type inferred from cell values.
#[derive(Debug, Clone, Copy, PartialEq, Eq, Structural)]
pub enum ColType {
    Integer,
    Float,
    Boolean,
    Date,
    String,
}

impl ColType {
    /// Lowercase name of the type, as shown in listings.
    pub fn name(&self) -> (r: &'static str)
        ensures
            r@ == col_type_name(*self),
    {
        match self {
            ColType::Integer => "integer",
            ColType::Float => "float",
            ColType::Boolean => "boolean",
            ColType::Date => "date",
            ColType::String => "string",
        }
    }
}

pub open spec fn col_type_name(t: ColType) -> Seq<char> {
    match t {
        ColType::Integer => "integer"@,
        ColType::Float => "float"@,
        ColType::Boolean => "boolean"@,
        ColType::Date => "date"@,
        ColType::String => "string"@,
    }
}

/// A single parsed column descriptor.
#[derive(Debug, Clone)]
pub struct Column {
    pub name: String,
    pub col_type: ColType,
    pub index: usize,
}

/// The complete result of reading a CSV/TSV file.
#[derive(Debug)]
pub struct Sheet {
    pub path: String,
    pub delimiter: u8,
    pub columns: Vec<Column>,
    /// Rows: each row is aligned to `columns`.
    pub rows: Vec<Vec<String>>,
}

impl Sheet {
    /// Whether every row has one cell per column.
    pub open spec fn aligned(&self) -> bool {
        forall|i: int| 0 <= i < self.rows@.len() ==> #[trigger] self.rows@[i]@.len() == self.columns@.len()
    }

    pub fn row_count(&self) -> (r: usize)
        ensures
            r == self.rows@.len(),
    {
        self.rows.len()
    }

    pub fn col_count(&self) -> (r: usize)
        ensures
            r == self.columns@.len(),
    {
        self.columns.len()
    }
}

// ---------------------------------------------------------------------------
// Delimiter
// ---------------------------------------------------------------------------

/// Number of occurrences of `c` in `s`.
pub open spec fn count_char(s: Seq<char>, c: char) -> nat
    decreases s.len(),
{
    if s.len() == 0 {
        0
    } else {
        count_char(s.drop_last(), c) + if s.last() == c {
            1nat
        } else {
            0
        }
    }
}

/// The delimiter among `,`, tab, `|` and `;` that occurs most often in the
/// first line; among equally frequent ones the last of that list wins.
pub open spec fn delimiter_of(line: Seq<char>) -> u8 {
    let a = count_char(line, ',');
    let b = count_char(line, '\t');
    let c = count_char(line, '|');
    let d = count_char(line, ';');
    if d >= a && d >= b && d >= c {
        59u8
    } else if c >= a && c >= b {
        124u8
    } else if b >= a {
        9u8
    } else {
        44u8
    }
}

fn count_char_vec(v: &Vec<char>, c: char) -> (r: usize)
    ensures
        r == count_char(v@, c),
{
    let mut n: usize = 0;
    let mut i: usize = 0;
    while i < v.len()
        invariant
            i <= v.len(),
            n == count_char(v@.take(i as int), c),
            n <= i,
        decreases v.len() - i,
    {
        let ghost t = v@.take(i + 1);
        assert(t.drop_last() =~= v@.take(i as int));
        if v[i] == c {
            n = n + 1;
        }
        i = i + 1;
    }
    assert(v@.take(v.len() as int) =~= v@);
    n
}

/// Detects the delimiter of a sheet from its first line.
pub fn detect_delimiter(first_line: &str) -> (r: u8)
    ensures
        r == delimiter_of(first_line@),
{
    let v = chars_of(first_line);
    let a = count_char_vec(&v, ',');
    let b = count_char_vec(&v, '\t');
    let c = count_char_vec(&v, '|');
    let d = count_char_vec(&v, ';');
    if d >= a && d >= b && d >= c {
        59u8
    } else if c >= a && c >= b {
        124u8
    } else if b >= a {
        9u8
    } else {
        44u8
    }
}

// ---------------------------------------------------------------------------
// Column types
// ---------------------------------------------------------------------------

/// Boolean spellings: true, false, yes, no, 1, 0 (in any ASCII case).
pub open spec fn is_bool_text(v: Seq<char>) -> bool {
    let l = ascii_lower(v);
    l == "true"@ || l == "false"@ || l == "yes"@ || l == "no"@ || l == "1"@ || l == "0"@
}

/// Date-like text: trimmed, 8 to 10 bytes, holding `-` or `/`, and starting
/// with a digit.
pub open spec fn is_date_like(v: Seq<char>) -> bool {
    let t = trim(v);
    8 <= utf8_len(t) <= 10 && (has_char(t, '-') || has_char(t, '/')) && t.len() > 0 && is_digit(t[0])
}

/// Text that parses as an `i64` once trimmed.
pub open spec fn is_int_text(v: Seq<char>) -> bool {
    parse_integer(trim(v), i64::MIN as int, i64::MAX as int) is Ok
}

/// The characters of `v` that are ASCII digits, `.` or `-`, in order.
pub open spec fn numeric_chars(v: Seq<char>) -> Seq<char>
    decreases v.len(),
{
    if v.len() == 0 {
        Seq::empty()
    } else {
        let prev = numeric_chars(v.drop_last());
        let c = v.last();
        if is_digit(c) || c == '.' || c == '-' {
            prev.push(c)
        } else {
            prev
        }
    }
}

/// Whether the rest `d` of a number is digits with at most one `.` in all,
/// given whether a `.` and a digit were already seen; at least one digit is
/// needed in all.
pub open spec fn float_scan(d: Seq<char>, seen_dot: bool, seen_digit: bool) -> bool
    decreases d.len(),
{
    if d.len() == 0 {
        seen_digit
    } else if is_digit(d[0]) {
        float_scan(d.drop_first(), seen_dot, true)
    } else if d[0] == '.' && !seen_dot {
        float_scan(d.drop_first(), true, seen_digit)
    } else {
        false
    }
}

/// Whether text made only of digits, `.` and `-` is a decimal number that
/// `f64::from_str` accepts: an optional `-`, then digits with at most one
/// `.`, and at least one digit.
pub open spec fn is_float_text(s: Seq<char>) -> bool {
    let body = if s.len() > 0 && s[0] == '-' {
        s.drop_first()
    } else {
        s
    };
    float_scan(body, false, false)
}

/// Whether the numeric characters of `v` form a float.
pub open spec fn is_number_text(v: Seq<char>) -> bool {
    let c = numeric_chars(v);
    c.len() > 0 && is_float_text(c)
}

/// The non-empty values of a column.
pub open spec fn non_empty(vals: Seq<Seq<char>>) -> Seq<Seq<char>>
    decreases vals.len(),
{
    if vals.len() == 0 {
        Seq::empty()
    } else {
        let prev = non_empty(vals.drop_last());
        if vals.last().len() > 0 {
            prev.push(vals.last())
        } else {
            prev
        }
    }
}

/// How many values satisfy `p`.
pub open spec fn count_where(vals: Seq<Seq<char>>, p: spec_fn(Seq<char>) -> bool) -> nat
    decreases vals.len(),
{
    if vals.len() == 0 {
        0
    } else {
        count_where(vals.drop_last(), p) + if p(vals.last()) {
            1nat
        } else {
            0
        }
    }
}

/// The type of a column from its values: string when all are empty; then
/// boolean if all non-empty ones are, date if at least 80% are date-like,
/// integer if all are, float if all hold a number, string otherwise.
pub open spec fn column_type(vals: Seq<Seq<char>>) -> ColType {
    let ne = non_empty(vals);
    let n = ne.len();
    if n == 0 {
        ColType::String
    } else if count_where(ne, |v: Seq<char>| is_bool_text(v)) == n {
        ColType::Boolean
    } else if 5 * count_where(ne, |v: Seq<char>| is_date_like(v)) >= 4 * n {
        ColType::Date
    } else if count_where(ne, |v: Seq<char>| is_int_text(v)) == n {
        ColType::Integer
    } else if count_where(ne, |v: Seq<char>| is_number_text(v)) == n {
        ColType::Float
    } else {
        ColType::String
    }
}

fn is_bool_vec(v: &Vec<char>) -> (r: bool)
    ensures
        r == is_bool_text(v@),
{
    let l = lower_vec(v);
    eq_str(&l, "true") || eq_str(&l, "false") || eq_str(&l, "yes") || eq_str(&l, "no") || eq_str(
        &l,
        "1",
    ) || eq_str(&l, "0")
}

fn is_date_vec(v: &Vec<char>) -> (r: bool)
    ensures
        r == is_date_like(v@),
{
    let t = trim_vec(v);
    let long_enough = crate::text::utf8_len_gt(&t, 7);
    let too_long = crate::text::utf8_len_gt(&t, 10);
    long_enough && !too_long && (vec_has_char(&t, '-') || vec_has_char(&t, '/')) && t.len() > 0 && (
    '0' <= t[0] && t[0] <= '9')
}

fn is_int_vec(v: &Vec<char>) -> (r: bool)
    ensures
        r == is_int_text(v@),
{
    let t = trim_vec(v);
    parse_integer_vec(&t, i64::MIN, i64::MAX).is_ok()
}

fn numeric_chars_vec(v: &Vec<char>) -> (r: Vec<char>)
    ensures
        r@ == numeric_chars(v@),
{
    let mut out: Vec<char> = Vec::new();
    let mut i: usize = 0;
    while i < v.len()
        invariant
            i <= v.len(),
            out@ == numeric_chars(v@.take(i as int)),
        decreases v.len() - i,
    {
        let ghost t = v@.take(i + 1);
        assert(t.drop_last() =~= v@.take(i as int));
        let c = v[i];
        if ('0' <= c && c <= '9') || c == '.' || c == '-' {
            out.push(c);
        }
        i = i + 1;
    }
    assert(v@.take(v.len() as int) =~= v@);
    out
}

fn is_float_vec(s: &Vec<char>) -> (r: bool)
    ensures
        r == is_float_text(s@),
{
    let start: usize = if s.len() > 0 && s[0] == '-' {
        1
    } else {
        0
    };
    assert(s@.skip(start as int) =~= (if s@.len() > 0 && s@[0] == '-' {
        s@.drop_first()
    } else {
        s@
    }));
    let mut i = start;
    let mut seen_dot = false;
    let mut seen_digit = false;
    while i < s.len()
        invariant
            start <= i <= s.len(),
            is_float_text(s@) == float_scan(s@.skip(i as int), seen_dot, seen_digit),
        decreases s.len() - i,
    {
        let c = s[i];
        let ghost rest = s@.skip(i as int);
        assert(rest[0] == c);
        assert(rest.drop_first() =~= s@.skip(i + 1));
        if '0' <= c && c <= '9' {
            seen_digit = true;
        } else if c == '.' && !seen_dot {
            seen_dot = true;
        } else {
            return false;
        }
        i = i + 1;
    }
    assert(s@.skip(i as int) =~= Seq::<char>::empty());
    seen_digit
}


fn count_bool(ne: &Vec<Vec<char>>) -> (r: usize)
    ensures
        r == count_where(crate::text::views(ne@), |v: Seq<char>| is_bool_text(v)),
{
    let ghost s = crate::text::views(ne@);
    let mut n: usize = 0;
    let mut i: usize = 0;
    while i < ne.len()
        invariant
            i <= ne.len(),
            s == crate::text::views(ne@),
            n == count_where(s.take(i as int), |v: Seq<char>| is_bool_text(v)),
            n <= i,
        decreases ne.len() - i,
    {
        assert(s.take(i + 1).drop_last() =~= s.take(i as int));
        assert(s.take(i + 1).last() == ne@[i as int]@);
        if is_bool_vec(&ne[i]) {
            n = n + 1;
        }
        i = i + 1;
    }
    assert(s.take(ne.len() as int) =~= s);
    n
}

fn count_date(ne: &Vec<Vec<char>>) -> (r: usize)
    ensures
        r == count_where(crate::text::views(ne@), |v: Seq<char>| is_date_like(v)),
{
    let ghost s = crate::text::views(ne@);
    let mut n: usize = 0;
    let mut i: usize = 0;
    while i < ne.len()
        invariant
            i <= ne.len(),
            s == crate::text::views(ne@),
            n == count_where(s.take(i as int), |v: Seq<char>| is_date_like(v)),
            n <= i,
        decreases ne.len() - i,
    {
        assert(s.take(i + 1).drop_last() =~= s.take(i as int));
        assert(s.take(i + 1).last() == ne@[i as int]@);
        if is_date_vec(&ne[i]) {
            n = n + 1;
        }
        i = i + 1;
    }
    assert(s.take(ne.len() as int) =~= s);
    n
}

fn count_int(ne: &Vec<Vec<char>>) -> (r: usize)
    ensures
        r == count_where(crate::text::views(ne@), |v: Seq<char>| is_int_text(v)),
{
    let ghost s = crate::text::views(ne@);
    let mut n: usize = 0;
    let mut i: usize = 0;
    while i < ne.len()
        invariant
            i <= ne.len(),
            s == crate::text::views(ne@),
            n == count_where(s.take(i as int), |v: Seq<char>| is_int_text(v)),
            n <= i,
        decreases ne.len() - i,
    {
        assert(s.take(i + 1).drop_last() =~= s.take(i as int));
        assert(s.take(i + 1).last() == ne@[i as int]@);
        if is_int_vec(&ne[i]) {
            n = n + 1;
        }
        i = i + 1;
    }
    assert(s.take(ne.len() as int) =~= s);
    n
}

fn count_number(ne: &Vec<Vec<char>>) -> (r: usize)
    ensures
        r == count_where(crate::text::views(ne@), |v: Seq<char>| is_number_text(v)),
{
    let ghost s = crate::text::views(ne@);
    let mut n: usize = 0;
    let mut i: usize = 0;
    while i < ne.len()
        invariant
            i <= ne.len(),
            s == crate::text::views(ne@),
            n == count_where(s.take(i as int), |v: Seq<char>| is_number_text(v)),
            n <= i,
        decreases ne.len() - i,
    {
        assert(s.take(i + 1).drop_last() =~= s.take(i as int));
        assert(s.take(i + 1).last() == ne@[i as int]@);
        let c = numeric_chars_vec(&ne[i]);
        if c.len() > 0 && is_float_vec(&c) {
            n = n + 1;
        }
        i = i + 1;
    }
    assert(s.take(ne.len() as int) =~= s);
    n
}

pub open spec fn slice_views(vals: Seq<&str>) -> Seq<Seq<char>> {
    vals.map_values(|v: &str| v@)
}

fn type_of_column(vals: &Vec<Vec<char>>) -> (r: ColType)
    ensures
        r == column_type(crate::text::views(vals@)),
{
    let ghost s = crate::text::views(vals@);
    let mut ne: Vec<Vec<char>> = Vec::new();
    let mut i: usize = 0;
    while i < vals.len()
        invariant
            i <= vals.len(),
            s == crate::text::views(vals@),
            crate::text::views(ne@) == non_empty(s.take(i as int)),
        decreases vals.len() - i,
    {
        assert(s.take(i + 1).drop_last() =~= s.take(i as int));
        assert(s.take(i + 1).last() == vals@[i as int]@);
        if vals[i].len() > 0 {
            let ghost before = crate::text::views(ne@);
            ne.push(vals[i].clone());
            assert(crate::text::views(ne@) =~= before.push(vals@[i as int]@));
        }
        i = i + 1;
    }
    assert(s.take(vals.len() as int) =~= s);
    let n = ne.len();
    assert(crate::text::views(ne@).len() == n);
    if n == 0 {
        return ColType::String;
    }
    if count_bool(&ne) == n {
        return ColType::Boolean;
    }
    let d = count_date(&ne);
    if 5 * (d as u128) >= 4 * (n as u128) {
        return ColType::Date;
    }
    if count_int(&ne) == n {
        return ColType::Integer;
    }
    if count_number(&ne) == n {
        return ColType::Float;
    }
    ColType::String
}

/// Infers the type of a column from its values (see `column_type`).
pub fn infer_type(values: &[&str]) -> (r: ColType)
    ensures
        r == column_type(slice_views(values@)),
{
    let mut vs: Vec<Vec<char>> = Vec::new();
    let mut i: usize = 0;
    while i < values.len()
        invariant
            i <= values.len(),
            crate::text::views(vs@) == slice_views(values@).take(i as int),
        decreases values.len() - i,
    {
        let ghost before = crate::text::views(vs@);
        vs.push(chars_of(values[i]));
        assert(crate::text::views(vs@) =~= before.push(values@[i as int]@));
        assert(slice_views(values@).take(i + 1) =~= slice_views(values@).take(i as int).push(values@[i as int]@));
        i = i + 1;
    }
    assert(slice_views(values@).take(values.len() as int) =~= slice_views(values@));
    type_of_column(&vs)
}

// ---------------------------------------------------------------------------
// Sheets
// ---------------------------------------------------------------------------

/// A record's fields trimmed and fitted to `n` columns (padded with empty
/// cells or cut).
pub open spec fn fit_record(rec: Seq<Seq<char>>, n: nat) -> Seq<Seq<char>> {
    Seq::new(n, |i: int| if i < rec.len() { trim(rec[i]) } else { Seq::<char>::empty() })
}

/// The `i`-th cell of each of the first `k` rows.
pub open spec fn column_sample(rows: Seq<Seq<Seq<char>>>, i: int, k: nat) -> Seq<Seq<char>> {
    Seq::new(k, |j: int| rows[j][i])
}

pub open spec fn rows_view(rows: Seq<Vec<String>>) -> Seq<Seq<Seq<char>>> {
    rows.map_values(|r: Vec<String>| str_views(r@))
}

/// Whether `sh` is the sheet read from `path` with the given delimiter,
/// header fields and records: trimmed headers, records trimmed and fitted to
/// the header width, and each column typed from its first 500 rows at most.
pub open spec fn sheet_ok(
    sh: Sheet,
    path: Seq<char>,
    delimiter: u8,
    headers: Seq<Seq<char>>,
    records: Seq<Seq<Seq<char>>>,
) -> bool {
    let n = headers.len();
    let rows = Seq::new(records.len(), |j: int| fit_record(records[j], n));
    let k = if records.len() < 500 {
        records.len()
    } else {
        500
    };
    &&& sh.path@ == path
    &&& sh.delimiter == delimiter
    &&& rows_view(sh.rows@) == rows
    &&& sh.columns@.len() == n
    &&& forall|i: int|
        0 <= i < n ==> {
            &&& (#[trigger] sh.columns@[i]).name@ == trim(headers[i])
            &&& sh.columns@[i].index == i
            &&& sh.columns@[i].col_type == column_type(column_sample(rows, i, k))
        }
}

fn fit_record_vec(rec: &Vec<String>, n: usize) -> (r: Vec<String>)
    ensures
        str_views(r@) == fit_record(str_views(rec@), n as nat),
{
    let mut out: Vec<String> = Vec::new();
    let mut i: usize = 0;
    while i < n
        invariant
            i <= n,
            str_views(out@) == fit_record(str_views(rec@), n as nat).take(i as int),
        decreases n - i,
    {
        let cell = if i < rec.len() {
            string_of(&trim_vec(&chars_of(rec[i].as_str())))
        } else {
            String::new()
        };
        let ghost before = str_views(out@);
        out.push(cell);
        assert(str_views(out@) =~= before.push(fit_record(str_views(rec@), n as nat)[i as int]));
        assert(fit_record(str_views(rec@), n as nat).take(i + 1) =~= fit_record(str_views(rec@), n as nat).take(
            i as int,
        ).push(fit_record(str_views(rec@), n as nat)[i as int]));
        i = i + 1;
    }
    assert(fit_record(str_views(rec@), n as nat).take(n as int) =~= fit_record(str_views(rec@), n as nat));
    out
}

/// Builds a sheet from the header fields and records a CSV reader produced.
pub fn build_sheet(path: &str, delimiter: u8, headers: &Vec<String>, records: &Vec<Vec<String>>) -> (r: Sheet)
    ensures
        sheet_ok(r, path@, delimiter, str_views(headers@), rows_view(records@)),
        r.aligned(),
{
    let n = headers.len();
    let ghost recs = rows_view(records@);
    let ghost rows_spec = Seq::new(records@.len(), |j: int| fit_record(recs[j], n as nat));
    let mut rows: Vec<Vec<String>> = Vec::new();
    let mut j: usize = 0;
    while j < records.len()
        invariant
            j <= records.len(),
            n == headers@.len(),
            recs == rows_view(records@),
            rows_spec == Seq::new(records@.len(), |j: int| fit_record(recs[j], n as nat)),
            rows_view(rows@) == rows_spec.take(j as int),
            forall|i: int| 0 <= i < rows@.len() ==> #[trigger] rows@[i]@.len() == n,
        decreases records.len() - j,
    {
        let row = fit_record_vec(&records[j], n);
        assert(str_views(row@).len() == row@.len());
        let ghost before = rows_view(rows@);
        rows.push(row);
        assert(rows_view(rows@) =~= before.push(rows_spec[j as int]));
        assert(rows_spec.take(j + 1) =~= rows_spec.take(j as int).push(rows_spec[j as int]));
        j = j + 1;
    }
    assert(rows_spec.take(records.len() as int) =~= rows_spec);
    let k: usize = if records.len() < 500 {
        records.len()
    } else {
        500
    };
    let mut columns: Vec<Column> = Vec::new();
    let mut i: usize = 0;
    while i < n
        invariant
            i <= n,
            n == headers@.len(),
            k <= rows@.len(),
            rows_view(rows@) == rows_spec,
            forall|q: int| 0 <= q < rows@.len() ==> #[trigger] rows@[q]@.len() == n,
            columns@.len() == i,
            forall|c: int|
                0 <= c < i ==> {
                    &&& (#[trigger] columns@[c]).name@ == trim(str_views(headers@)[c])
                    &&& columns@[c].index == c
                    &&& columns@[c].col_type == column_type(column_sample(rows_spec, c, k as nat))
                },
        decreases n - i,
    {
        let mut vals: Vec<Vec<char>> = Vec::new();
        let mut q: usize = 0;
        while q < k
            invariant
                q <= k,
                i < n,
                k <= rows@.len(),
                rows_view(rows@) == rows_spec,
                forall|x: int| 0 <= x < rows@.len() ==> #[trigger] rows@[x]@.len() == n,
                crate::text::views(vals@) == column_sample(rows_spec, i as int, k as nat).take(q as int),
            decreases k - q,
        {
            assert(rows@[q as int]@.len() == n);
            let cell = chars_of(rows[q][i].as_str());
            assert(rows_spec[q as int] == str_views(rows@[q as int]@));
            let ghost before = crate::text::views(vals@);
            vals.push(cell);
            assert(crate::text::views(vals@) =~= before.push(column_sample(rows_spec, i as int, k as nat)[q as int]));
            assert(column_sample(rows_spec, i as int, k as nat).take(q + 1) =~= column_sample(rows_spec, i as int, k as nat).take(
                q as int,
            ).push(column_sample(rows_spec, i as int, k as nat)[q as int]));
            q = q + 1;
        }
        assert(column_sample(rows_spec, i as int, k as nat).take(k as int) =~= column_sample(rows_spec, i as int, k as nat));
        let col_type = type_of_column(&vals);
        let name = string_of(&trim_vec(&chars_of(headers[i].as_str())));
        columns.push(Column { name, col_type, index: i });
        i = i + 1;
    }
    Sheet { path: path.to_owned(), delimiter, columns, rows }
}

// ---------------------------------------------------------------------------
// Reading a sheet from its text
// ---------------------------------------------------------------------------

/// What the `csv` crate reads from `raw` with the given delimiter, a header
/// row and records of varying length: the header fields and the records'
/// fields, untrimmed; or the text of its error.
pub uninterp spec fn csv_records(raw: Seq<char>, delimiter: u8) -> Result<(Seq<Seq<char>>, Seq<Seq<Seq<char>>>), Seq<char>>;

/// Reads `raw` with `csv::ReaderBuilder` (`delimiter`, `has_headers(true)`,
/// `flexible(true)`).
#[verifier::external_body]
fn parse_csv_text(raw: &str, delimiter: u8) -> (r: Result<(Vec<String>, Vec<Vec<String>>), String>)
    ensures
        match r {
            Ok((h, rs)) => csv_records(raw@, delimiter) == Ok::<_, Seq<char>>((str_views(h@), rows_view(rs@))),
            Err(e) => csv_records(raw@, delimiter) == Err::<(Seq<Seq<char>>, Seq<Seq<Seq<char>>>), _>(e@),
        },
{
    let mut rdr = csv::ReaderBuilder::new().delimiter(delimiter).has_headers(true).flexible(true).from_reader(
        raw.as_bytes(),
    );
    let headers: Vec<String> = rdr.headers().map_err(|e| e.to_string())?.iter().map(String::from).collect();
    let records = rdr.records().map(|r| r.map(|rec| rec.iter().map(String::from).collect())).collect::<Result<
        Vec<Vec<String>>,
        csv::Error,
    >>().map_err(|e| e.to_string())?;
    Ok((headers, records))
}

/// The first line of a text, or empty.
pub open spec fn first_line(raw: Seq<char>) -> Seq<char> {
    if lines(raw).len() > 0 {
        lines(raw)[0]
    } else {
        Seq::empty()
    }
}

/// Reads the sheet stored at `path` from its text `raw`: the delimiter is
/// detected on the first line, then the CSV records are read, trimmed and
/// fitted to the header row; a read error is passed on as its message.
pub fn sheet_from_text(path: &str, raw: &str) -> (r: Result<Sheet, String>)
    ensures
        match csv_records(raw@, delimiter_of(first_line(raw@))) {
            Ok((h, rs)) => r matches Ok(sh) && sheet_ok(sh, path@, delimiter_of(first_line(raw@)), h, rs)
                && sh.aligned(),
            Err(e) => r matches Err(m) && m@ == e,
        },
{
    let ls = lines_vec(&chars_of(raw));
    let first = if ls.len() > 0 {
        string_of(&ls[0])
    } else {
        String::new()
    };
    let delimiter = detect_delimiter(first.as_str());
    match parse_csv_text(raw, delimiter) {
        Ok((headers, records)) => Ok(build_sheet(path, delimiter, &headers, &records)),
        Err(e) => Err(e),
    }
}

} // verus!
