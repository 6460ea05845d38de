//! CSV field escaping, CSV line and record parsing, the CSV rendering of
//! JSON rows, and the choice of conversion between two formats.
use vstd::prelude::*;
use crate::docconv::formats::{detect_format, detected_name, is_supported, Format, names};
use crate::text::{
    chars_of, concat_vec, contains_piece, has_char, join, join_vec, lines, lines_vec, push_chars,
    str_views, string_of, strings_of, trim, trim_vec, unicode_lower, vec_eq, vec_has_char, views,
};

verus! {

// ---------------------------------------------------------------------------
// Escaping and joining
// ---------------------------------------------------------------------------

/// A field needs quoting when it holds a comma, a double quote or a newline.
pub open spec fn needs_quotes(s: Seq<char>) -> bool {
    has_char(s, ',') || has_char(s, '"') || has_char(s, '\n')
}

/// `s` with every double quote doubled.
pub open spec fn double_quotes(s: Seq<char>) -> Seq<char>
    decreases s.len(),
{
    if s.len() == 0 {
        Seq::empty()
    } else {
        double_quotes(s.drop_last()) + (if s.last() == '"' {
            seq!['"', '"']
        } else {
            seq![s.last()]
        })
    }
}

/// RFC 4180 escaping of one field.
pub open spec fn escape_field(s: Seq<char>) -> Seq<char> {
    if needs_quotes(s) {
        seq!['"'] + double_quotes(s) + seq!['"']
    } else {
        s
    }
}

/// Escaped fields joined with commas.
pub open spec fn csv_line(fields: Seq<Seq<char>>) -> Seq<char> {
    join(fields.map_values(|f: Seq<char>| escape_field(f)), seq![','])
}

fn double_quotes_vec(v: &Vec<char>) -> (r: Vec<char>)
    ensures
        r@ == double_quotes(v@),
{
    let mut out: Vec<char> = Vec::new();
    let mut i: usize = 0;
    while i < v.len()
        invariant
            i <= v.len(),
            out@ == double_quotes(v@.take(i as int)),
        decreases v.len() - i,
    {
        let ghost t = v@.take(i + 1);
        assert(t.drop_last() =~= v@.take(i as int));
        if v[i] == '"' {
            out.push('"');
            out.push('"');
        } else {
            out.push(v[i]);
        }
        assert(out@ =~= double_quotes(t));
        i = i + 1;
    }
    assert(v@.take(v.len() as int) =~= v@);
    out
}

fn escape_vec(v: &Vec<char>) -> (r: Vec<char>)
    ensures
        r@ == escape_field(v@),
{
    if vec_has_char(v, ',') || vec_has_char(v, '"') || vec_has_char(v, '\n') {
        let mut out: Vec<char> = Vec::new();
        out.push('"');
        let d = double_quotes_vec(v);
        let mut out = concat_vec(&out, &d);
        out.push('"');
        assert(out@ =~= seq!['"'] + double_quotes(v@) + seq!['"']);
        out
    } else {
        v.clone()
    }
}

/// RFC 4180 CSV escaping: a field holding a comma, quote or newline is
/// wrapped in quotes with its quotes doubled; any other field is unchanged.
pub fn csv_escape(s: &str) -> (r: String)
    ensures
        r@ == escape_field(s@),
{
    let v = chars_of(s);
    let e = escape_vec(&v);
    string_of(&e)
}

fn csv_line_vec(fields: &Vec<Vec<char>>) -> (r: Vec<char>)
    ensures
        r@ == csv_line(views(fields@)),
{
    let mut escaped: Vec<Vec<char>> = Vec::new();
    let mut i: usize = 0;
    while i < fields.len()
        invariant
            i <= fields.len(),
            views(escaped@) == views(fields@).take(i as int).map_values(
                |f: Seq<char>| escape_field(f),
            ),
        decreases fields.len() - i,
    {
        let e = escape_vec(&fields[i]);
        let ghost before = views(escaped@);
        escaped.push(e);
        assert(views(escaped@) =~= before.push(escape_field(views(fields@)[i as int])));
        assert(views(fields@).take(i + 1).map_values(|f: Seq<char>| escape_field(f))
            =~= views(fields@).take(i as int).map_values(|f: Seq<char>| escape_field(f)).push(
            escape_field(views(fields@)[i as int]),
        ));
        i = i + 1;
    }
    assert(views(fields@).take(fields.len() as int) =~= views(fields@));
    let mut sep: Vec<char> = Vec::new();
    sep.push(',');
    assert(sep@ =~= seq![',']);
    join_vec(&escaped, &sep)
}

/// Escapes each field and joins them with commas.
pub fn csv_join(fields: &Vec<String>) -> (r: String)
    ensures
        r@ == csv_line(str_views(fields@)),
{
    let v = crate::text::char_vecs_of(fields);
    let line = csv_line_vec(&v);
    string_of(&line)
}

// ---------------------------------------------------------------------------
// Parsing one CSV line
// ---------------------------------------------------------------------------

/// Fields of the rest `s` of a line, given the state reached so far: inside
/// quotes or not, the field being read, and the fields already finished.
/// Within quotes a doubled quote stands for one quote; outside quotes a comma
/// ends a field; fields are trimmed.
pub open spec fn csv_fields_from(
    s: Seq<char>,
    quoted: bool,
    cur: Seq<char>,
    done: Seq<Seq<char>>,
) -> Seq<Seq<char>>
    decreases s.len(),
{
    if s.len() == 0 {
        done.push(trim(cur))
    } else if s[0] == '"' {
        if quoted {
            if s.len() > 1 && s[1] == '"' {
                csv_fields_from(s.skip(2), true, cur.push('"'), done)
            } else {
                csv_fields_from(s.skip(1), false, cur, done)
            }
        } else {
            csv_fields_from(s.skip(1), true, cur, done)
        }
    } else if s[0] == ',' && !quoted {
        csv_fields_from(s.skip(1), false, Seq::empty(), done.push(trim(cur)))
    } else {
        csv_fields_from(s.skip(1), quoted, cur.push(s[0]), done)
    }
}

/// The fields of one CSV line.
pub open spec fn csv_fields(line: Seq<char>) -> Seq<Seq<char>> {
    csv_fields_from(line, false, Seq::empty(), Seq::empty())
}

/// The commas of the rest `s` of a line that stand outside double quotes,
/// reading quotes as the field scan does (a doubled quote inside quotes
/// stands for one quote).
pub open spec fn unquoted_commas(s: Seq<char>, quoted: bool) -> nat
    decreases s.len(),
{
    if s.len() == 0 {
        0
    } else if s[0] == '"' {
        if quoted {
            if s.len() > 1 && s[1] == '"' {
                unquoted_commas(s.skip(2), true)
            } else {
                unquoted_commas(s.skip(1), false)
            }
        } else {
            unquoted_commas(s.skip(1), true)
        }
    } else if s[0] == ',' && !quoted {
        1 + unquoted_commas(s.skip(1), false)
    } else {
        unquoted_commas(s.skip(1), quoted)
    }
}

proof fn lemma_fields_from_count(s: Seq<char>, quoted: bool, cur: Seq<char>, done: Seq<Seq<char>>)
    ensures
        csv_fields_from(s, quoted, cur, done).len() == done.len() + 1 + unquoted_commas(s, quoted),
    decreases s.len(),
{
    if s.len() > 0 {
        if s[0] == '"' {
            if quoted {
                if s.len() > 1 && s[1] == '"' {
                    lemma_fields_from_count(s.skip(2), true, cur.push('"'), done);
                } else {
                    lemma_fields_from_count(s.skip(1), false, cur, done);
                }
            } else {
                lemma_fields_from_count(s.skip(1), true, cur, done);
            }
        } else if s[0] == ',' && !quoted {
            lemma_fields_from_count(s.skip(1), false, Seq::empty(), done.push(trim(cur)));
        } else {
            lemma_fields_from_count(s.skip(1), quoted, cur.push(s[0]), done);
        }
    }
}

/// A CSV line has one field more than it has commas outside quotes.
pub proof fn lemma_csv_field_count(line: Seq<char>)
    ensures
        csv_fields(line).len() == 1 + unquoted_commas(line, false),
{
    lemma_fields_from_count(line, false, Seq::empty(), Seq::empty());
}

fn parse_csv_line_vec(v: &Vec<char>) -> (r: Vec<Vec<char>>)
    ensures
        views(r@) == csv_fields(v@),
{
    let mut fields: Vec<Vec<char>> = Vec::new();
    let mut cur: Vec<char> = Vec::new();
    let mut quoted = false;
    let mut i: usize = 0;
    assert(v@.skip(0) =~= v@);
    assert(views(fields@) =~= Seq::<Seq<char>>::empty());
    assert(cur@ =~= Seq::<char>::empty());
    while i < v.len()
        invariant
            i <= v.len(),
            csv_fields(v@) == csv_fields_from(v@.skip(i as int), quoted, cur@, views(fields@)),
        decreases v.len() - i,
    {
        let c = v[i];
        let ghost rest = v@.skip(i as int);
        assert(rest[0] == c);
        if c == '"' {
            if quoted {
                if i + 1 < v.len() && v[i + 1] == '"' {
                    assert(rest[1] == v@[i + 1]);
                    assert(rest.skip(2) =~= v@.skip(i + 2));
                    cur.push('"');
                    i = i + 2;
                } else {
                    assert(rest.skip(1) =~= v@.skip(i + 1));
                    quoted = false;
                    i = i + 1;
                }
            } else {
                assert(rest.skip(1) =~= v@.skip(i + 1));
                quoted = true;
                i = i + 1;
            }
        } else if c == ',' && !quoted {
            assert(rest.skip(1) =~= v@.skip(i + 1));
            let t = trim_vec(&cur);
            let ghost before = views(fields@);
            fields.push(t);
            assert(views(fields@) =~= before.push(trim(cur@)));
            cur = Vec::new();
            assert(cur@ =~= Seq::<char>::empty());
            i = i + 1;
        } else {
            assert(rest.skip(1) =~= v@.skip(i + 1));
            cur.push(c);
            i = i + 1;
        }
    }
    assert(v@.skip(i as int) =~= Seq::<char>::empty());
    let t = trim_vec(&cur);
    let ghost before = views(fields@);
    fields.push(t);
    assert(views(fields@) =~= before.push(trim(cur@)));
    fields
}

/// Parses one CSV line, handling double-quoted fields and doubled quotes
/// inside them; every field is trimmed.
pub fn parse_csv_line(line: &str) -> (r: Vec<String>)
    ensures
        str_views(r@) == csv_fields(line@),
{
    let v = chars_of(line);
    let f = parse_csv_line_vec(&v);
    strings_of(&f)
}

/// `double_quotes` of a sequence split at its first character.
proof fn lemma_double_quotes_front(s: Seq<char>)
    requires
        s.len() > 0,
    ensures
        double_quotes(s) == (if s[0] == '"' {
            seq!['"', '"']
        } else {
            seq![s[0]]
        }) + double_quotes(s.drop_first()),
    decreases s.len(),
{
    if s.len() == 1 {
        assert(s.drop_first() =~= Seq::<char>::empty());
        assert(s.drop_last() =~= Seq::<char>::empty());
        assert(double_quotes(s.drop_first()) =~= Seq::<char>::empty());
    } else {
        lemma_double_quotes_front(s.drop_last());
        assert(s.drop_last().drop_first() =~= s.drop_first().drop_last());
        assert(s.drop_first().last() == s.last());
        assert(s.drop_last()[0] == s[0]);
    }
}

/// Scanning the quoted form of `g` (after its opening quote) up to the
/// closing quote, followed by the end of the line or a comma, adds `g` to
/// the field being read and leaves the quotes.
proof fn lemma_scan_quoted(g: Seq<char>, r: Seq<char>, cur: Seq<char>, done: Seq<Seq<char>>)
    requires
        r.len() == 0 || r[0] == ',',
    ensures
        csv_fields_from(double_quotes(g) + seq!['"'] + r, true, cur, done) == csv_fields_from(
            r,
            false,
            cur + g,
            done,
        ),
    decreases g.len(),
{
    if g.len() == 0 {
        assert(double_quotes(g) + seq!['"'] + r =~= seq!['"'] + r);
        assert((seq!['"'] + r).skip(1) =~= r);
        assert(cur + g =~= cur);
    } else {
        lemma_double_quotes_front(g);
        let c = g[0];
        let rest = g.drop_first();
        lemma_scan_quoted(rest, r, cur.push(c), done);
        let s = double_quotes(g) + seq!['"'] + r;
        assert(cur.push(c) + rest =~= cur + g);
        if c == '"' {
            assert(s =~= seq!['"', '"'] + (double_quotes(rest) + seq!['"'] + r));
            assert(s.skip(2) =~= double_quotes(rest) + seq!['"'] + r);
        } else {
            assert(s =~= seq![c] + (double_quotes(rest) + seq!['"'] + r));
            assert(s.skip(1) =~= double_quotes(rest) + seq!['"'] + r);
        }
    }
}

/// Scanning a field with no quote or comma, in plain mode, adds it to the
/// field being read.
proof fn lemma_scan_plain(f: Seq<char>, r: Seq<char>, cur: Seq<char>, done: Seq<Seq<char>>)
    requires
        !has_char(f, ','),
        !has_char(f, '"'),
    ensures
        csv_fields_from(f + r, false, cur, done) == csv_fields_from(r, false, cur + f, done),
    decreases f.len(),
{
    if f.len() == 0 {
        assert(f + r =~= r);
        assert(cur + f =~= cur);
    } else {
        let c = f[0];
        let rest = f.drop_first();
        assert(!has_char(rest, ',') && !has_char(rest, '"')) by {
            if has_char(rest, ',') {
                let j = choose|j: int| 0 <= j < rest.len() && rest[j] == ',';
                assert(f[j + 1] == ',');
            }
            if has_char(rest, '"') {
                let j = choose|j: int| 0 <= j < rest.len() && rest[j] == '"';
                assert(f[j + 1] == '"');
            }
        }
        assert(c != ',' && c != '"') by {
            assert(f[0] == c);
        }
        lemma_scan_plain(rest, r, cur.push(c), done);
        assert((f + r).skip(1) =~= rest + r);
        assert(cur.push(c) + rest =~= cur + f);
    }
}

/// Scanning an escaped field followed by the end of the line or a comma
/// reads back the field.
proof fn lemma_scan_field(f: Seq<char>, r: Seq<char>, done: Seq<Seq<char>>)
    requires
        r.len() == 0 || r[0] == ',',
    ensures
        csv_fields_from(escape_field(f) + r, false, Seq::empty(), done) == csv_fields_from(
            r,
            false,
            f,
            done,
        ),
{
    if needs_quotes(f) {
        let s = escape_field(f) + r;
        assert(s =~= seq!['"'] + (double_quotes(f) + seq!['"'] + r));
        assert(s.skip(1) =~= double_quotes(f) + seq!['"'] + r);
        lemma_scan_quoted(f, r, Seq::empty(), done);
        assert(Seq::<char>::empty() + f =~= f);
    } else {
        lemma_scan_plain(f, r, Seq::empty(), done);
        assert(Seq::<char>::empty() + f =~= f);
    }
}

/// Reading back a CSV line gives the fields it was written from, appended
/// to those already read, when each field has no surrounding whitespace.
proof fn lemma_read_back(fs: Seq<Seq<char>>, done: Seq<Seq<char>>)
    requires
        fs.len() > 0,
        forall|i: int| 0 <= i < fs.len() ==> trim(#[trigger] fs[i]) == fs[i],
    ensures
        csv_fields_from(csv_line(fs), false, Seq::empty(), done) == done + fs,
    decreases fs.len(),
{
    let es = fs.map_values(|f: Seq<char>| escape_field(f));
    if fs.len() == 1 {
        assert(es =~= seq![escape_field(fs[0])]);
        assert(csv_line(fs) == escape_field(fs[0]));
        assert(escape_field(fs[0]) + Seq::<char>::empty() =~= escape_field(fs[0]));
        lemma_scan_field(fs[0], Seq::empty(), done);
        assert(trim(fs[0]) == fs[0]);
        assert(done.push(fs[0]) =~= done + fs);
    } else {
        let rest = fs.drop_first();
        crate::text::lemma_join_front(es, seq![',']);
        assert(es.drop_first() =~= rest.map_values(|f: Seq<char>| escape_field(f)));
        assert(csv_line(fs) == es[0] + seq![','] + csv_line(rest));
        let r = seq![','] + csv_line(rest);
        assert(csv_line(fs) =~= escape_field(fs[0]) + r);
        lemma_scan_field(fs[0], r, done);
        assert(r.skip(1) =~= csv_line(rest));
        assert(trim(fs[0]) == fs[0]);
        assert forall|i: int| 0 <= i < rest.len() implies trim(#[trigger] rest[i]) == rest[i] by {
            assert(rest[i] == fs[i + 1]);
        }
        lemma_read_back(rest, done.push(fs[0]));
        assert(done.push(fs[0]) + rest =~= done + fs);
    }
}

/// Writing fields as a CSV line and parsing the line back gives the same
/// fields, provided there is at least one and none has surrounding
/// whitespace (parsing trims fields).
pub proof fn lemma_csv_round_trip(fs: Seq<Seq<char>>)
    requires
        fs.len() > 0,
        forall|i: int| 0 <= i < fs.len() ==> trim(#[trigger] fs[i]) == fs[i],
    ensures
        csv_fields(csv_line(fs)) == fs,
{
    lemma_read_back(fs, Seq::empty());
    assert(Seq::<Seq<char>>::empty() + fs =~= fs);
}

// ---------------------------------------------------------------------------
// CSV records
// ---------------------------------------------------------------------------

/// A CSV document read as a header row and data rows; every data row holds
/// one value per header.
pub struct CsvTable {
    pub headers: Vec<String>,
    pub rows: Vec<Vec<String>>,
}

/// Why CSV text was refused.
#[derive(Debug, Clone, Copy, PartialEq, Eq, Structural)]
pub enum CsvError {
    /// The text has no lines at all.
    Empty,
}

/// A data row laid against the headers: the `i`-th value, or empty where the
/// line has fewer values.
pub open spec fn fit_row(values: Seq<Seq<char>>, n: nat) -> Seq<Seq<char>> {
    Seq::new(n, |i: int| if i < values.len() { values[i] } else { Seq::<char>::empty() })
}

/// Data rows of the given lines: blank lines are skipped, others are trimmed,
/// parsed and fitted to `n` headers.
pub open spec fn csv_rows(ls: Seq<Seq<char>>, n: nat) -> Seq<Seq<Seq<char>>>
    decreases ls.len(),
{
    if ls.len() == 0 {
        Seq::empty()
    } else {
        let prev = csv_rows(ls.drop_last(), n);
        let l = trim(ls.last());
        if l.len() == 0 {
            prev
        } else {
            prev.push(fit_row(csv_fields(l), n))
        }
    }
}

pub open spec fn row_views(rows: Seq<Vec<String>>) -> Seq<Seq<Seq<char>>> {
    rows.map_values(|r: Vec<String>| str_views(r@))
}

fn fit_row_vec(values: &Vec<Vec<char>>, n: usize) -> (r: Vec<String>)
    ensures
        str_views(r@) == fit_row(views(values@), n as nat),
{
    let mut out: Vec<String> = Vec::new();
    let mut i: usize = 0;
    while i < n
        invariant
            i <= n,
            str_views(out@) == fit_row(views(values@), n as nat).take(i as int),
        decreases n - i,
    {
        let s = if i < values.len() {
            string_of(&values[i])
        } else {
            String::new()
        };
        let ghost before = str_views(out@);
        out.push(s);
        assert(str_views(out@) =~= before.push(fit_row(views(values@), n as nat)[i as int]));
        assert(fit_row(views(values@), n as nat).take(i + 1) =~= fit_row(views(values@), n as nat).take(i as int).push(
            fit_row(views(values@), n as nat)[i as int],
        ));
        i = i + 1;
    }
    assert(fit_row(views(values@), n as nat).take(n as int) =~= fit_row(views(values@), n as nat));
    out
}

/// Parses CSV text into its header row and data rows (keyed by the headers
/// when rendered as JSON objects).
pub fn parse_csv_records(raw: &str) -> (r: Result<CsvTable, CsvError>)
    ensures
        match r {
            Ok(t) => lines(raw@).len() > 0 && str_views(t.headers@) == csv_fields(lines(raw@)[0])
                && row_views(t.rows@) == csv_rows(lines(raw@).drop_first(), t.headers@.len()),
            Err(e) => lines(raw@).len() == 0 && e == CsvError::Empty,
        },
{
    let v = chars_of(raw);
    let ls = lines_vec(&v);
    if ls.len() == 0 {
        return Err(CsvError::Empty);
    }
    let header_fields = parse_csv_line_vec(&ls[0]);
    let n = header_fields.len();
    let headers = strings_of(&header_fields);
    assert(views(ls@)[0] == ls@[0]@);
    assert(str_views(headers@).len() == headers@.len());
    let ghost rest = views(ls@).drop_first();
    let mut rows: Vec<Vec<String>> = Vec::new();
    let mut i: usize = 1;
    assert(rest.take(0) =~= Seq::<Seq<char>>::empty());
    assert(row_views(rows@) =~= Seq::<Seq<Seq<char>>>::empty());
    while i < ls.len()
        invariant
            1 <= i <= ls.len(),
            rest == views(ls@).drop_first(),
            n == header_fields.len(),
            row_views(rows@) == csv_rows(rest.take(i - 1), n as nat),
        decreases ls.len() - i,
    {
        let ghost t = rest.take(i as int);
        assert(t.drop_last() =~= rest.take(i - 1));
        assert(t.last() == ls@[i as int]@);
        let l = trim_vec(&ls[i]);
        if l.len() > 0 {
            let values = parse_csv_line_vec(&l);
            let row = fit_row_vec(&values, n);
            let ghost before = row_views(rows@);
            rows.push(row);
            assert(row_views(rows@) =~= before.push(fit_row(csv_fields(l@), n as nat)));
        }
        i = i + 1;
    }
    assert(rest.take(ls.len() - 1) =~= rest);
    Ok(CsvTable { headers, rows })
}

// ---------------------------------------------------------------------------
// JSON rows to CSV
// ---------------------------------------------------------------------------

/// One row of a JSON array as its cells: `Some` of the key/cell pairs of an
/// object, in the object's order, or `None` for any other value.
pub type JsonRow = Option<Vec<(String, String)>>;

pub open spec fn pair_views(p: Seq<(String, String)>) -> Seq<(Seq<char>, Seq<char>)> {
    p.map_values(|kv: (String, String)| (kv.0@, kv.1@))
}

pub open spec fn json_row_views(rows: Seq<JsonRow>) -> Seq<Option<Seq<(Seq<char>, Seq<char>)>>> {
    rows.map_values(
        |r: JsonRow|
            match r {
                Some(p) => Some(pair_views(p@)),
                None => None,
            },
    )
}

/// `keys` extended by those keys of `obj` it does not hold yet, in order.
pub open spec fn add_keys(keys: Seq<Seq<char>>, obj: Seq<(Seq<char>, Seq<char>)>) -> Seq<Seq<char>>
    decreases obj.len(),
{
    if obj.len() == 0 {
        keys
    } else {
        let k = add_keys(keys, obj.drop_last());
        if k.contains(obj.last().0) {
            k
        } else {
            k.push(obj.last().0)
        }
    }
}

/// The distinct keys of the object rows, in order of first appearance.
pub open spec fn json_headers(rows: Seq<Option<Seq<(Seq<char>, Seq<char>)>>>) -> Seq<Seq<char>>
    decreases rows.len(),
{
    if rows.len() == 0 {
        Seq::empty()
    } else {
        let h = json_headers(rows.drop_last());
        match rows.last() {
            Some(obj) => add_keys(h, obj),
            None => h,
        }
    }
}

proof fn lemma_add_keys(keys: Seq<Seq<char>>, obj: Seq<(Seq<char>, Seq<char>)>)
    requires
        keys.no_duplicates(),
    ensures
        add_keys(keys, obj).no_duplicates(),
        forall|k: Seq<char>| keys.contains(k) ==> add_keys(keys, obj).contains(k),
        forall|i: int| 0 <= i < obj.len() ==> add_keys(keys, obj).contains(#[trigger] obj[i].0),
    decreases obj.len(),
{
    if obj.len() > 0 {
        let init = obj.drop_last();
        lemma_add_keys(keys, init);
        let k = add_keys(keys, init);
        let last = obj.last().0;
        if !k.contains(last) {
            let u = k.push(last);
            assert forall|i: int, j: int| 0 <= i < u.len() && 0 <= j < u.len() && i != j implies u[i] != u[j] by {
                if i < k.len() && j < k.len() {
                } else if i < k.len() {
                    assert(u[j] == last && u[i] == k[i]);
                } else {
                    assert(u[i] == last && u[j] == k[j]);
                }
            }
            assert forall|x: Seq<char>| k.contains(x) implies u.contains(x) by {
                let i = choose|i: int| 0 <= i < k.len() && k[i] == x;
                assert(u[i] == x);
            }
            assert(u[k.len() as int] == last);
        }
        assert forall|i: int| 0 <= i < obj.len() implies add_keys(keys, obj).contains(#[trigger] obj[i].0) by {
            if i < init.len() {
                assert(init[i] == obj[i]);
            }
        }
    }
}

/// The CSV header row of JSON object rows names every key of every object,
/// each once.
pub proof fn lemma_json_headers_complete(rows: Seq<Option<Seq<(Seq<char>, Seq<char>)>>>)
    ensures
        json_headers(rows).no_duplicates(),
        forall|r: int, i: int|
            0 <= r < rows.len() && rows[r] is Some && 0 <= i < rows[r]->Some_0.len() ==> json_headers(
                rows,
            ).contains(#[trigger] rows[r]->Some_0[i].0),
    decreases rows.len(),
{
    if rows.len() > 0 {
        let init = rows.drop_last();
        lemma_json_headers_complete(init);
        let h = json_headers(init);
        match rows.last() {
            Some(obj) => {
                lemma_add_keys(h, obj);
            },
            None => {},
        }
        assert forall|r: int, i: int|
            0 <= r < rows.len() && rows[r] is Some && 0 <= i < rows[r]->Some_0.len() implies json_headers(
                rows,
            ).contains(#[trigger] rows[r]->Some_0[i].0) by {
            if r < init.len() {
                assert(init[r] == rows[r]);
                assert(h.contains(init[r]->Some_0[i].0));
            }
        }
    }
}

/// The cell of the first pair of `obj` with key `k`, or empty.
pub open spec fn lookup(obj: Seq<(Seq<char>, Seq<char>)>, k: Seq<char>) -> Seq<char>
    decreases obj.len(),
{
    if obj.len() == 0 {
        Seq::empty()
    } else if obj[0].0 == k {
        obj[0].1
    } else {
        lookup(obj.drop_first(), k)
    }
}

/// CSV lines of the object rows, in order, each ended by a newline.
pub open spec fn json_body(
    rows: Seq<Option<Seq<(Seq<char>, Seq<char>)>>>,
    headers: Seq<Seq<char>>,
) -> Seq<char>
    decreases rows.len(),
{
    if rows.len() == 0 {
        Seq::empty()
    } else {
        let prev = json_body(rows.drop_last(), headers);
        match rows.last() {
            Some(obj) => prev + csv_line(headers.map_values(|h: Seq<char>| lookup(obj, h)))
                + seq!['\n'],
            None => prev,
        }
    }
}

/// CSV text of JSON rows: empty for no rows; otherwise the header line of all
/// distinct keys followed by one line per object row.
pub open spec fn json_csv(rows: Seq<Option<Seq<(Seq<char>, Seq<char>)>>>) -> Seq<char> {
    if rows.len() == 0 {
        Seq::empty()
    } else {
        let h = json_headers(rows);
        csv_line(h) + seq!['\n'] + json_body(rows, h)
    }
}

fn add_keys_vec(keys: &mut Vec<Vec<char>>, obj: &Vec<(String, String)>)
    ensures
        views(final(keys)@) == add_keys(views(old(keys)@), pair_views(obj@)),
{
    let ghost start = views(keys@);
    let ghost o = pair_views(obj@);
    let mut i: usize = 0;
    assert(o.take(0) =~= Seq::<(Seq<char>, Seq<char>)>::empty());
    while i < obj.len()
        invariant
            i <= obj.len(),
            o == pair_views(obj@),
            views(keys@) == add_keys(start, o.take(i as int)),
        decreases obj.len() - i,
    {
        let k = chars_of(obj[i].0.as_str());
        let ghost t = o.take(i + 1);
        assert(t.drop_last() =~= o.take(i as int));
        assert(t.last().0 == k@);
        if !contains_piece(keys, &k) {
            let ghost before = views(keys@);
            keys.push(k);
            assert(views(keys@) =~= before.push(t.last().0));
        }
        i = i + 1;
    }
    assert(o.take(obj.len() as int) =~= o);
}

fn lookup_vec(obj: &Vec<(String, String)>, k: &Vec<char>) -> (r: Vec<char>)
    ensures
        r@ == lookup(pair_views(obj@), k@),
{
    let ghost o = pair_views(obj@);
    let mut i: usize = 0;
    assert(o.skip(0) =~= o);
    while i < obj.len()
        invariant
            i <= obj.len(),
            o == pair_views(obj@),
            lookup(o, k@) == lookup(o.skip(i as int), k@),
        decreases obj.len() - i,
    {
        let key = chars_of(obj[i].0.as_str());
        let ghost rest = o.skip(i as int);
        assert(rest[0] == o[i as int]);
        if vec_eq(&key, k) {
            return chars_of(obj[i].1.as_str());
        }
        assert(rest.drop_first() =~= o.skip(i + 1));
        i = i + 1;
    }
    Vec::new()
}

/// Renders JSON rows as CSV: the header line holds every distinct key of the
/// object rows in order of first appearance; each object row gives one line
/// with its cell under each header (empty where it lacks the key); rows that
/// are not objects give no line. No rows at all give empty text.
pub fn json_rows_to_csv(rows: &Vec<JsonRow>) -> (r: String)
    ensures
        r@ == json_csv(json_row_views(rows@)),
{
    let ghost jr = json_row_views(rows@);
    if rows.len() == 0 {
        return String::new();
    }
    let mut headers: Vec<Vec<char>> = Vec::new();
    let mut i: usize = 0;
    assert(jr.take(0) =~= Seq::<Option<Seq<(Seq<char>, Seq<char>)>>>::empty());
    while i < rows.len()
        invariant
            i <= rows.len(),
            jr == json_row_views(rows@),
            views(headers@) == json_headers(jr.take(i as int)),
        decreases rows.len() - i,
    {
        let ghost t = jr.take(i + 1);
        assert(t.drop_last() =~= jr.take(i as int));
        match &rows[i] {
            Some(obj) => {
                assert(t.last() == Some(pair_views(obj@)));
                add_keys_vec(&mut headers, obj);
            },
            None => {
                assert(t.last() is None);
            },
        }
        i = i + 1;
    }
    assert(jr.take(rows.len() as int) =~= jr);
    let ghost h = views(headers@);
    let mut out = csv_line_vec(&headers);
    out.push('\n');
    let ghost head = out@;
    let mut j: usize = 0;
    assert(jr.take(0) =~= Seq::<Option<Seq<(Seq<char>, Seq<char>)>>>::empty());
    assert(head =~= head + json_body(jr.take(0), h));
    while j < rows.len()
        invariant
            j <= rows.len(),
            jr == json_row_views(rows@),
            h == views(headers@),
            out@ == head + json_body(jr.take(j as int), h),
        decreases rows.len() - j,
    {
        let ghost t = jr.take(j + 1);
        assert(t.drop_last() =~= jr.take(j as int));
        match &rows[j] {
            Some(obj) => {
                assert(t.last() == Some(pair_views(obj@)));
                let mut cells: Vec<Vec<char>> = Vec::new();
                let mut k: usize = 0;
                while k < headers.len()
                    invariant
                        k <= headers.len(),
                        h == views(headers@),
                        views(cells@) == h.take(k as int).map_values(
                            |x: Seq<char>| lookup(pair_views(obj@), x),
                        ),
                    decreases headers.len() - k,
                {
                    let c = lookup_vec(obj, &headers[k]);
                    let ghost before = views(cells@);
                    cells.push(c);
                    assert(views(cells@) =~= before.push(lookup(pair_views(obj@), h[k as int])));
                    assert(h.take(k + 1).map_values(|x: Seq<char>| lookup(pair_views(obj@), x))
                        =~= h.take(k as int).map_values(|x: Seq<char>| lookup(pair_views(obj@), x)).push(
                        lookup(pair_views(obj@), h[k as int]),
                    ));
                    k = k + 1;
                }
                assert(h.take(headers.len() as int) =~= h);
                let line = csv_line_vec(&cells);
                let ghost prev = out@;
                out = concat_vec(&out, &line);
                out.push('\n');
                assert(out@ =~= prev + line@ + seq!['\n']);
            },
            None => {
                assert(t.last() is None);
            },
        }
        j = j + 1;
    }
    assert(jr.take(rows.len() as int) =~= jr);
    string_of(&out)
}

// ---------------------------------------------------------------------------
// Choosing a conversion
// ---------------------------------------------------------------------------

/// The conversions the tool performs.
#[derive(Debug, Clone, Copy, PartialEq, Eq, Structural)]
pub enum Conversion {
    PdfToText,
    PdfToJson,
    CsvToJson,
    JsonToCsv,
}

/// The result of a successful conversion.
pub struct ConvertResult {
    pub output: String,
    pub format: Format,
}

/// A conversion that is not supported: the format detected for the input.
pub struct UnsupportedConversion {
    pub from: Format,
}

pub open spec fn conversion_for(src: Format, dst: Format) -> Option<Conversion> {
    match (src, dst) {
        (Format::Pdf, Format::Text) => Some(Conversion::PdfToText),
        (Format::Pdf, Format::Json) => Some(Conversion::PdfToJson),
        (Format::Csv, Format::Json) => Some(Conversion::CsvToJson),
        (Format::Json, Format::Csv) => Some(Conversion::JsonToCsv),
        _ => None,
    }
}

/// Two formats named by the same name lead to the same conversions.
pub proof fn lemma_named_conversion(a: Format, b: Format, n: Seq<char>, dst: Format)
    requires
        names(a, n),
        names(b, n),
    ensures
        conversion_for(a, dst) == conversion_for(b, dst),
{
    reveal_strlit("pdf");
    reveal_strlit("csv");
    reveal_strlit("json");
    reveal_strlit("txt");
    reveal_strlit("text");
    assert("pdf"@[0] == 'p' && "csv"@[0] == 'c' && "json"@[0] == 'j' && "txt"@[0] == 't'
        && "text"@[0] == 't');
    assert("txt"@.len() == 3 && "text"@.len() == 4);
}

/// Picks the conversion from the format detected for `input_path` to
/// `target`; refuses any pair that is not supported.
pub fn convert(input_path: &str, target: &Format) -> (r: Result<Conversion, UnsupportedConversion>)
    ensures
        forall|src: Format|
            names(src, detected_name(input_path@)) ==> match r {
                Ok(c) => conversion_for(src, *target) == Some(c),
                Err(_) => conversion_for(src, *target) is None,
            },
        r matches Err(u) ==> names(u.from, detected_name(input_path@)),
{
    let src = detect_format(input_path);
    proof {
        assert forall|s2: Format| names(s2, detected_name(input_path@)) implies conversion_for(
            s2,
            *target,
        ) == conversion_for(src, *target) by {
            lemma_named_conversion(s2, src, detected_name(input_path@), *target);
        }
    }
    if !is_supported(&src, target) {
        return Err(UnsupportedConversion { from: src });
    }
    match (&src, target) {
        (Format::Pdf, Format::Text) => Ok(Conversion::PdfToText),
        (Format::Pdf, Format::Json) => Ok(Conversion::PdfToJson),
        (Format::Csv, Format::Json) => Ok(Conversion::CsvToJson),
        _ => Ok(Conversion::JsonToCsv),
    }
}


// ---------------------------------------------------------------------------
// Text conversions through serde_json
// ---------------------------------------------------------------------------

/// What `serde_json` reads from `raw`: the text of its error where the text
/// is not JSON; `None` for a document other than an array; else for each
/// array element its keys, in the order the parsed map holds them, with
/// each value's cell text (a string as itself, `null` as empty, any other
/// value as its JSON text), or `None` for an element that is not an object.
pub uninterp spec fn json_document(raw: Seq<char>) -> Result<Option<Seq<Option<Seq<(Seq<char>, Seq<char>)>>>>, Seq<char>>;

pub open spec fn opt_rows_view(r: Option<Vec<JsonRow>>) -> Option<Seq<Option<Seq<(Seq<char>, Seq<char>)>>>> {
    match r {
        Some(rows) => Some(json_row_views(rows@)),
        None => None,
    }
}

/// Parses `raw` with `serde_json::from_str` into a `Value` and reads it as
/// rows of cells.
#[verifier::external_body]
fn parse_json_rows(raw: &str) -> (r: Result<Option<Vec<JsonRow>>, String>)
    ensures
        match r {
            Ok(d) => json_document(raw@) == Ok::<_, Seq<char>>(opt_rows_view(d)),
            Err(e) => json_document(raw@) == Err::<Option<Seq<Option<Seq<(Seq<char>, Seq<char>)>>>>, _>(e@),
        },
{
    let v: serde_json::Value = serde_json::from_str(raw).map_err(|e| e.to_string())?;
    Ok(v.as_array().map(|rows| {
        rows.iter().map(|row| {
            row.as_object().map(|o| {
                o.iter().map(|(k, c)| (k.clone(), match c {
                    serde_json::Value::String(s) => s.clone(),
                    serde_json::Value::Null => String::new(),
                    other => other.to_string(),
                })).collect()
            })
        }).collect()
    }))
}

/// Why JSON text could not be turned into CSV.
#[derive(Debug, Clone, PartialEq, Eq)]
pub enum JsonCsvError {
    /// The text is not JSON; the parser's message.
    InvalidJson(String),
    /// The document is not an array.
    NotAnArray,
}

impl JsonCsvError {
    /// The message reported for the error.
    pub fn message(&self) -> (r: String)
        ensures
            r@ == (match *self {
                JsonCsvError::InvalidJson(e) => "Invalid JSON: "@ + e@,
                JsonCsvError::NotAnArray => "JSON must be an array of objects"@,
            }),
    {
        match self {
            JsonCsvError::InvalidJson(e) => {
                let mut m = "Invalid JSON: ".to_owned();
                m.append(e.as_str());
                m
            },
            JsonCsvError::NotAnArray => "JSON must be an array of objects".to_owned(),
        }
    }
}

/// Converts JSON text (an array of flat objects) to CSV text.
pub fn json_str_to_csv(raw: &str) -> (r: Result<String, JsonCsvError>)
    ensures
        match json_document(raw@) {
            Err(e) => r matches Err(JsonCsvError::InvalidJson(m)) && m@ == e,
            Ok(None) => r matches Err(JsonCsvError::NotAnArray),
            Ok(Some(rows)) => r matches Ok(t) && t@ == json_csv(rows),
        },
{
    match parse_json_rows(raw) {
        Err(e) => Err(JsonCsvError::InvalidJson(e)),
        Ok(None) => Err(JsonCsvError::NotAnArray),
        Ok(Some(rows)) => Ok(json_rows_to_csv(&rows)),
    }
}

/// The pretty-printed JSON array, one object per row keyed by the headers,
/// that `serde_json::to_string_pretty` writes.
pub uninterp spec fn pretty_json_rows(headers: Seq<Seq<char>>, rows: Seq<Seq<Seq<char>>>) -> Seq<char>;

/// Writes the rows as a JSON array of objects of strings with
/// `serde_json::to_string_pretty` (which cannot fail on such values).
#[verifier::external_body]
fn rows_to_pretty_json(headers: &Vec<String>, rows: &Vec<Vec<String>>) -> (r: String)
    ensures
        r@ == pretty_json_rows(str_views(headers@), row_views(rows@)),
{
    let objects: Vec<serde_json::Value> = rows.iter().map(|row| {
        serde_json::Value::Object(headers.iter().cloned().zip(row.iter().cloned().map(serde_json::Value::String)).collect())
    }).collect();
    serde_json::to_string_pretty(&serde_json::Value::Array(objects)).unwrap_or_default()
}

/// Converts CSV text to a pretty-printed JSON array of objects keyed by the
/// header row.
pub fn csv_str_to_json(raw: &str) -> (r: Result<String, CsvError>)
    ensures
        match r {
            Ok(s) => lines(raw@).len() > 0 && s@ == pretty_json_rows(
                csv_fields(lines(raw@)[0]),
                csv_rows(lines(raw@).drop_first(), csv_fields(lines(raw@)[0]).len()),
            ),
            Err(e) => lines(raw@).len() == 0 && e == CsvError::Empty,
        },
{
    match parse_csv_records(raw) {
        Ok(t) => {
            proof {
                assert(t.headers@.len() == str_views(t.headers@).len());
            }
            Ok(rows_to_pretty_json(&t.headers, &t.rows))
        },
        Err(e) => Err(e),
    }
}

} // verus!
