//! Page and contract risk analysis: readable text from PDF content streams,
//! risk phrases and clause numbers found in it, and the scores derived.
use vstd::prelude::*;
use crate::clauseguard::clauses::{
    build_clause_db, clause_risk_table, clause_table, lookup_clause, numbers_and_risks, risk_name, risk_weight,
    ClauseDb, ClauseInfo, ClauseView, RiskLevel,
};
use crate::pattern::{
    compile, decode_lossy, escape, escape_regex, find_all, is_match, regex_compiles,
    regex_find_all, regex_is_match, utf8_lossy, Matcher,
};
use crate::text::{
    char_len, char_len_exec, utf8_len, chars_of, contains_piece, is_graphic, join, join_vec, split_ws, split_ws_vec, str_views,
    string_of, strings_of, vec_eq, views,
};

verus! {

// ---------------------------------------------------------------------------
// Readable text of a content stream
// ---------------------------------------------------------------------------

/// The character an escape sequence `\c` stands for inside a string literal.
pub open spec fn unescape(c: char) -> char {
    if c == 'n' {
        '\n'
    } else if c == 'r' {
        '\r'
    } else if c == 't' {
        '\t'
    } else {
        c
    }
}

/// Scan state after reading `s`: inside a parenthesised string, after a
/// backslash, and the characters collected so far.
pub open spec fn stream_state(s: Seq<char>) -> (bool, bool, Seq<char>)
    decreases s.len(),
{
    if s.len() == 0 {
        (false, false, Seq::empty())
    } else {
        let (in_str, esc, out) = stream_state(s.drop_last());
        let c = s.last();
        if esc {
            (in_str, false, if in_str {
                out.push(unescape(c))
            } else {
                out
            })
        } else if c == '\\' {
            (in_str, true, out)
        } else if c == '(' && !in_str {
            (true, false, out)
        } else if c == ')' && in_str {
            (false, false, out.push(' '))
        } else if in_str {
            (in_str, false, if is_graphic(c) || c == ' ' {
                out.push(c)
            } else {
                out
            })
        } else {
            (in_str, false, out)
        }
    }
}

/// Text shown by the string literals of a content stream, with runs of
/// whitespace collapsed to single spaces.
pub open spec fn readable_text(s: Seq<char>) -> Seq<char> {
    join(split_ws(stream_state(s).2), seq![' '])
}

fn readable_chars(raw: &Vec<char>) -> (r: Vec<char>)
    ensures
        r@ == readable_text(raw@),
{
    let mut out: Vec<char> = Vec::new();
    let mut in_str = false;
    let mut esc = false;
    let mut i: usize = 0;
    assert(raw@.take(0) =~= Seq::<char>::empty());
    while i < raw.len()
        invariant
            i <= raw.len(),
            stream_state(raw@.take(i as int)) == (in_str, esc, out@),
        decreases raw.len() - i,
    {
        let c = raw[i];
        let ghost t = raw@.take(i + 1);
        assert(t.drop_last() =~= raw@.take(i as int));
        assert(t.last() == c);
        if esc {
            esc = false;
            if in_str {
                let u = if c == 'n' {
                    '\n'
                } else if c == 'r' {
                    '\r'
                } else if c == 't' {
                    '\t'
                } else {
                    c
                };
                out.push(u);
            }
        } else if c == '\\' {
            esc = true;
        } else if c == '(' && !in_str {
            in_str = true;
        } else if c == ')' && in_str {
            in_str = false;
            out.push(' ');
        } else if in_str {
            if ('!' <= c && c <= '~') || c == ' ' {
                out.push(c);
            }
        }
        i = i + 1;
    }
    assert(raw@.take(raw.len() as int) =~= raw@);
    let words = split_ws_vec(&out);
    let mut sep: Vec<char> = Vec::new();
    sep.push(' ');
    assert(sep@ =~= seq![' ']);
    join_vec(&words, &sep)
}

/// Extracts human-readable text from raw PDF content-stream bytes: the
/// characters of parenthesised string literals (escapes decoded, other
/// non-printable characters dropped), each literal followed by a space, with
/// whitespace runs collapsed to single spaces.
pub fn extract_readable_text(content: &Vec<u8>) -> (r: String)
    ensures
        r@ == readable_text(utf8_lossy(content@)),
{
    let raw = decode_lossy(content);
    let v = chars_of(raw.as_str());
    let t = readable_chars(&v);
    string_of(&t)
}


/// Phrases that contribute red risk when found in contract text.
pub open spec fn red_phrases_list() -> Seq<Seq<char>> {
    seq![
        "liquidated damages"@,
        "termination for default"@,
        "default termination"@,
        "personal liability"@,
        "excess reprocurement"@,
        "forfeiture"@,
        "suspend payments"@,
        "debarment"@,
        "criminal penalty"@,
        "fraud"@
    ]
}

/// Phrases that contribute red risk when found in contract text.
pub fn red_phrases() -> (r: Vec<&'static str>)
    ensures
        r@.map_values(|p: &str| p@) == red_phrases_list(),
{
    let mut v: Vec<&'static str> = Vec::new();
    v.push("liquidated damages");
    v.push("termination for default");
    v.push("default termination");
    v.push("personal liability");
    v.push("excess reprocurement");
    v.push("forfeiture");
    v.push("suspend payments");
    v.push("debarment");
    v.push("criminal penalty");
    v.push("fraud");
    assert(v@.map_values(|p: &str| p@) =~= red_phrases_list());
    v
}

/// Phrases that contribute yellow risk.
pub open spec fn yellow_phrases_list() -> Seq<Seq<char>> {
    seq![
        "option to extend"@,
        "unilateral modification"@,
        "government property"@,
        "retainage"@,
        "withhold"@,
        "audit rights"@,
        "certified cost"@,
        "prevailing wage"@,
        "wage determination"@,
        "subcontracting limitation"@
    ]
}

/// Phrases that contribute yellow risk.
pub fn yellow_phrases() -> (r: Vec<&'static str>)
    ensures
        r@.map_values(|p: &str| p@) == yellow_phrases_list(),
{
    let mut v: Vec<&'static str> = Vec::new();
    v.push("option to extend");
    v.push("unilateral modification");
    v.push("government property");
    v.push("retainage");
    v.push("withhold");
    v.push("audit rights");
    v.push("certified cost");
    v.push("prevailing wage");
    v.push("wage determination");
    v.push("subcontracting limitation");
    assert(v@.map_values(|p: &str| p@) =~= yellow_phrases_list());
    v
}

/// Phrases favourable to the contractor; they lower the score.
pub open spec fn green_phrases_list() -> Seq<Seq<char>> {
    seq![
        "termination for convenience"@,
        "disputes"@,
        "payment terms"@,
        "prompt payment"@,
        "equitable adjustment"@,
        "excusable delay"@
    ]
}

/// Phrases favourable to the contractor; they lower the score.
pub fn green_phrases() -> (r: Vec<&'static str>)
    ensures
        r@.map_values(|p: &str| p@) == green_phrases_list(),
{
    let mut v: Vec<&'static str> = Vec::new();
    v.push("termination for convenience");
    v.push("disputes");
    v.push("payment terms");
    v.push("prompt payment");
    v.push("equitable adjustment");
    v.push("excusable delay");
    assert(v@.map_values(|p: &str| p@) =~= green_phrases_list());
    v
}

// ---------------------------------------------------------------------------
// Scores
// ---------------------------------------------------------------------------

/// `a - b`, or 0 where `b` exceeds `a`.
pub open spec fn sat_sub(a: nat, b: nat) -> nat {
    if a >= b {
        (a - b) as nat
    } else {
        0
    }
}

/// Phrase score: red hits weigh 10 and yellow hits 3, and half the green
/// weight is taken off the yellow part only, never below zero.
pub open spec fn phrase_score(red: nat, yellow: nat, green: nat) -> nat {
    red * risk_weight(RiskLevel::Red) + sat_sub(
        yellow * risk_weight(RiskLevel::Yellow),
        green * risk_weight(RiskLevel::Green) / 2,
    )
}

/// Risk level of a page score: red from 20, yellow from 5.
pub open spec fn page_level(score: nat) -> RiskLevel {
    if score >= 20 {
        RiskLevel::Red
    } else if score >= 5 {
        RiskLevel::Yellow
    } else {
        RiskLevel::Green
    }
}

/// Risk level of a contract score: red from 40, yellow from 12.
pub open spec fn contract_level(score: nat) -> RiskLevel {
    if score >= 40 {
        RiskLevel::Red
    } else if score >= 12 {
        RiskLevel::Yellow
    } else {
        RiskLevel::Green
    }
}

/// Risk found on one page of a contract.
#[derive(Debug, Clone)]
pub struct PageRisk {
    pub page_number: u32,
    /// The page text, cut to at most 2000 characters.
    pub text_preview: String,
    pub red_hits: Vec<String>,
    pub yellow_hits: Vec<String>,
    pub green_hits: Vec<String>,
    pub clause_refs: Vec<String>,
    pub risk_score: u32,
    pub risk_level: RiskLevel,
}

impl PageRisk {
    /// Score of a page from its numbers of red, yellow and green hits; the
    /// green count is taken as a `u32`, as `as` casts it.
    pub fn compute_score(red: usize, yellow: usize, green: usize) -> (r: u32)
        requires
            red * 10 + yellow * 3 <= u32::MAX,
        ensures
            r == phrase_score(red as nat, yellow as nat, (green as u32) as nat),
    {
        let r = red as u32;
        let y = yellow as u32;
        let g = green as u32;
        let yw = y * RiskLevel::Yellow.weight();
        let gw = g * RiskLevel::Green.weight() / 2;
        let rest = if yw >= gw {
            yw - gw
        } else {
            0
        };
        r * RiskLevel::Red.weight() + rest
    }

    /// Risk level of a page score.
    pub fn score_to_level(score: u32) -> (r: RiskLevel)
        ensures
            r == page_level(score as nat),
    {
        if score >= 20 {
            RiskLevel::Red
        } else if score >= 5 {
            RiskLevel::Yellow
        } else {
            RiskLevel::Green
        }
    }
}

/// A page score never decreases when more red or yellow phrases are hit, nor
/// when fewer green ones are.
pub proof fn lemma_score_monotone(r1: nat, y1: nat, g1: nat, r2: nat, y2: nat, g2: nat)
    requires
        r1 <= r2,
        y1 <= y2,
        g2 <= g1,
    ensures
        phrase_score(r1, y1, g1) <= phrase_score(r2, y2, g2),
{
    assert(r1 * 10 <= r2 * 10) by (nonlinear_arith)
        requires
            r1 <= r2,
    ;
    assert(y1 * 3 <= y2 * 3) by (nonlinear_arith)
        requires
            y1 <= y2,
    ;
    assert(g2 * 1 / 2 <= g1 * 1 / 2) by (nonlinear_arith)
        requires
            g2 <= g1,
    ;
}

/// A higher score never gives a lower risk level, for pages and contracts.
pub proof fn lemma_level_monotone(a: nat, b: nat)
    requires
        a <= b,
    ensures
        risk_weight(page_level(a)) <= risk_weight(page_level(b)),
        risk_weight(contract_level(a)) <= risk_weight(contract_level(b)),
{
}

// ---------------------------------------------------------------------------
// Phrase and clause detection
// ---------------------------------------------------------------------------

/// Regular expression matching a phrase anywhere, without regard to case.
pub open spec fn phrase_pattern(p: Seq<char>) -> Seq<char> {
    "(?i)"@ + escape_regex(p)
}

/// Regular expression of FAR (`52.xxx-x`, `52.xxx-xx`) and DFARS
/// (`252.xxx-xxxx`) clause numbers.
pub open spec fn clause_pattern() -> Seq<char> {
    "\\b(252\\.\\d{3}-\\d{4}|52\\.\\d{3}-\\d{1,2})\\b"@
}

/// The phrases, in order, whose pattern matches in `text`.
pub open spec fn hits(phrases: Seq<Seq<char>>, text: Seq<char>) -> Seq<Seq<char>>
    decreases phrases.len(),
{
    if phrases.len() == 0 {
        Seq::empty()
    } else {
        let prev = hits(phrases.drop_last(), text);
        if regex_is_match(phrase_pattern(phrases.last()), text) {
            prev.push(phrases.last())
        } else {
            prev
        }
    }
}

/// `s` without repetitions, each item kept at its first occurrence.
pub open spec fn dedup(s: Seq<Seq<char>>) -> Seq<Seq<char>>
    decreases s.len(),
{
    if s.len() == 0 {
        Seq::empty()
    } else {
        let prev = dedup(s.drop_last());
        if prev.contains(s.last()) {
            prev
        } else {
            prev.push(s.last())
        }
    }
}

/// The distinct clause numbers found in `text`, in order of appearance.
pub open spec fn clause_refs(text: Seq<char>) -> Seq<Seq<char>> {
    dedup(regex_find_all(clause_pattern(), text))
}

pub proof fn lemma_hits_len(phrases: Seq<Seq<char>>, text: Seq<char>)
    ensures
        hits(phrases, text).len() <= phrases.len(),
    decreases phrases.len(),
{
    if phrases.len() > 0 {
        lemma_hits_len(phrases.drop_last(), text);
    }
}

/// An item is in `s.push(a)` when it is `a` or is in `s`.
pub proof fn lemma_push_contains(s: Seq<Seq<char>>, a: Seq<char>, x: Seq<char>)
    ensures
        s.push(a).contains(x) <==> (s.contains(x) || x == a),
{
    if s.contains(x) {
        let j = choose|j: int| 0 <= j < s.len() && s[j] == x;
        assert(s.push(a)[j] == x);
    }
    if x == a {
        assert(s.push(a)[s.len() as int] == x);
    }
    if s.push(a).contains(x) {
        let j = choose|j: int| 0 <= j < s.push(a).len() && s.push(a)[j] == x;
        if j < s.len() {
            assert(s[j] == x);
        }
    }
}

/// `dedup` keeps exactly the items of `s`, once each.
pub proof fn lemma_dedup(s: Seq<Seq<char>>)
    ensures
        dedup(s).no_duplicates(),
        forall|x: Seq<char>| dedup(s).contains(x) <==> s.contains(x),
    decreases s.len(),
{
    if s.len() > 0 {
        let t = s.drop_last();
        let prev = dedup(t);
        lemma_dedup(t);
        assert(s =~= t.push(s.last()));
        assert forall|x: Seq<char>| dedup(s).contains(x) <==> s.contains(x) by {
            lemma_push_contains(t, s.last(), x);
            lemma_push_contains(prev, s.last(), x);
        }
    }
}

pub(crate) fn dedup_vec(v: &Vec<Vec<char>>) -> (r: Vec<Vec<char>>)
    ensures
        views(r@) == dedup(views(v@)),
{
    let ghost s = views(v@);
    let mut out: Vec<Vec<char>> = Vec::new();
    let mut i: usize = 0;
    assert(s.take(0) =~= Seq::<Seq<char>>::empty());
    while i < v.len()
        invariant
            i <= v.len(),
            s == views(v@),
            views(out@) == dedup(s.take(i as int)),
        decreases v.len() - i,
    {
        let ghost t = s.take(i + 1);
        assert(t.drop_last() =~= s.take(i as int));
        assert(t.last() == v@[i as int]@);
        if !contains_piece(&out, &v[i]) {
            let ghost before = views(out@);
            out.push(v[i].clone());
            assert(views(out@) =~= before.push(v@[i as int]@));
        }
        i = i + 1;
    }
    assert(s.take(v.len() as int) =~= s);
    out
}

/// Whether `ms` are the compiled phrase patterns of `phrases`, in order.
pub open spec fn patterns_for(ms: Seq<Matcher>, phrases: Seq<Seq<char>>) -> bool {
    &&& ms.len() == phrases.len()
    &&& forall|i: int| 0 <= i < ms.len() ==> #[trigger] ms[i].pattern() == phrase_pattern(phrases[i])
}

/// Whether every phrase pattern of `phrases` compiles.
pub open spec fn phrases_compile(phrases: Seq<Seq<char>>) -> bool {
    forall|i: int| 0 <= i < phrases.len() ==> regex_compiles(#[trigger] phrase_pattern(phrases[i]))
}

/// Whether every pattern the analyzer uses compiles.
pub open spec fn all_patterns_compile() -> bool {
    &&& regex_compiles(clause_pattern())
    &&& phrases_compile(red_phrases_list())
    &&& phrases_compile(yellow_phrases_list())
    &&& phrases_compile(green_phrases_list())
}

fn phrase_matcher(phrase: &str) -> (r: Option<Matcher>)
    ensures
        r is Some <==> regex_compiles(phrase_pattern(phrase@)),
        r matches Some(m) ==> m.pattern() == phrase_pattern(phrase@),
{
    let mut p = "(?i)".to_owned();
    let e = escape(phrase);
    p.append(e.as_str());
    compile(p.as_str())
}

fn compile_phrases(phrases: &Vec<&str>) -> (r: Option<Vec<Matcher>>)
    ensures
        r is Some <==> phrases_compile(phrases@.map_values(|p: &str| p@)),
        r matches Some(ms) ==> patterns_for(ms@, phrases@.map_values(|p: &str| p@)),
{
    let ghost ps = phrases@.map_values(|p: &str| p@);
    let mut out: Vec<Matcher> = Vec::new();
    let mut i: usize = 0;
    while i < phrases.len()
        invariant
            i <= phrases.len(),
            ps == phrases@.map_values(|p: &str| p@),
            out@.len() == i,
            forall|j: int| 0 <= j < i ==> #[trigger] out@[j].pattern() == phrase_pattern(ps[j]),
            forall|j: int| 0 <= j < i ==> regex_compiles(#[trigger] phrase_pattern(ps[j])),
        decreases phrases.len() - i,
    {
        match phrase_matcher(phrases[i]) {
            Some(m) => {
                out.push(m);
            },
            None => {
                assert(!regex_compiles(phrase_pattern(ps[i as int])));
                return None;
            },
        }
        i = i + 1;
    }
    Some(out)
}

fn hits_in(ms: &Vec<Matcher>, phrases: &Vec<&str>, text: &str) -> (r: Vec<String>)
    requires
        patterns_for(ms@, phrases@.map_values(|p: &str| p@)),
    ensures
        str_views(r@) == hits(phrases@.map_values(|p: &str| p@), text@),
{
    let ghost ps = phrases@.map_values(|p: &str| p@);
    let mut out: Vec<String> = Vec::new();
    let mut i: usize = 0;
    assert(ps.take(0) =~= Seq::<Seq<char>>::empty());
    while i < ms.len()
        invariant
            i <= ms.len(),
            ps == phrases@.map_values(|p: &str| p@),
            patterns_for(ms@, ps),
            str_views(out@) == hits(ps.take(i as int), text@),
        decreases ms.len() - i,
    {
        let ghost t = ps.take(i + 1);
        assert(t.drop_last() =~= ps.take(i as int));
        assert(ms@[i as int].pattern() == phrase_pattern(ps[i as int]));
        if is_match(&ms[i], text) {
            let ghost before = str_views(out@);
            out.push(phrases[i].to_owned());
            assert(str_views(out@) =~= before.push(ps[i as int]));
        }
        i = i + 1;
    }
    assert(ps.take(ms.len() as int) =~= ps);
    out
}

// ---------------------------------------------------------------------------
// Text preview
// ---------------------------------------------------------------------------

/// The page text, cut to its first 2000 characters where it is longer.
pub open spec fn preview(text: Seq<char>) -> Seq<char> {
    if text.len() > 2000 {
        text.take(2000)
    } else {
        text
    }
}

fn preview_of(text: &Vec<char>) -> (r: Vec<char>)
    ensures
        r@ == preview(text@),
{
    if text.len() > 2000 {
        crate::text::slice_of(text, 0, 2000)
    } else {
        text.clone()
    }
}

// ---------------------------------------------------------------------------
// Known clauses
// ---------------------------------------------------------------------------

/// The database entries of the clause numbers in `refs` that it holds, in
/// the order of `refs`.
pub open spec fn known(db: Seq<ClauseView>, refs: Seq<Seq<char>>) -> Seq<ClauseView>
    decreases refs.len(),
{
    if refs.len() == 0 {
        Seq::empty()
    } else {
        let prev = known(db, refs.drop_last());
        match lookup_clause(db, refs.last()) {
            Some(c) => prev.push(c),
            None => prev,
        }
    }
}

/// Sum of the risk weights of clauses.
pub open spec fn weights(cs: Seq<ClauseView>) -> nat
    decreases cs.len(),
{
    if cs.len() == 0 {
        0
    } else {
        weights(cs.drop_last()) + risk_weight(cs.last().2)
    }
}

/// Positions in the database of the known clauses of `refs`.
pub open spec fn known_positions(db: Seq<ClauseView>, refs: Seq<Seq<char>>) -> Set<int>
    decreases refs.len(),
{
    if refs.len() == 0 {
        Set::empty()
    } else {
        let prev = known_positions(db, refs.drop_last());
        let f = crate::clauseguard::clauses::find_clause(db, refs.last());
        if f >= 0 {
            prev.insert(f)
        } else {
            prev
        }
    }
}

proof fn lemma_known_positions(db: Seq<ClauseView>, refs: Seq<Seq<char>>)
    requires
        refs.no_duplicates(),
    ensures
        known_positions(db, refs).finite(),
        known_positions(db, refs).len() == known(db, refs).len(),
        forall|x: int| #[trigger] known_positions(db, refs).contains(x) ==> 0 <= x < db.len()
            && refs.contains(db[x].0),
    decreases refs.len(),
{
    if refs.len() > 0 {
        let t = refs.drop_last();
        assert forall|i: int, j: int| 0 <= i < j < t.len() implies t[i] != t[j] by {
            assert(refs[i] == t[i] && refs[j] == t[j]);
        }
        lemma_known_positions(db, t);
        crate::clauseguard::clauses::lemma_find_clause(db, refs.last());
        let f = crate::clauseguard::clauses::find_clause(db, refs.last());
        assert forall|x: int| #[trigger] known_positions(db, refs).contains(x) implies 0 <= x < db.len()
            && refs.contains(db[x].0) by {
            if known_positions(db, t).contains(x) {
                let j = choose|j: int| 0 <= j < t.len() && t[j] == db[x].0;
                assert(refs[j] == db[x].0);
            } else {
                assert(x == f);
                assert(refs[refs.len() - 1] == db[x].0);
            }
        }
        if f >= 0 {
            if known_positions(db, t).contains(f) {
                let j = choose|j: int| 0 <= j < t.len() && t[j] == db[f].0;
                assert(refs[j] == refs[refs.len() - 1]);
                assert(false);
            }
        }
    }
}

/// Distinct clause numbers have at most as many known clauses as the
/// database has entries.
pub proof fn lemma_known_bounded(db: Seq<ClauseView>, refs: Seq<Seq<char>>)
    requires
        refs.no_duplicates(),
    ensures
        known(db, refs).len() <= db.len(),
{
    lemma_known_positions(db, refs);
    vstd::set_lib::lemma_int_range(0, db.len() as int);
    assert(known_positions(db, refs).subset_of(vstd::set_lib::set_int_range(0, db.len() as int)));
    vstd::set_lib::lemma_len_subset(
        known_positions(db, refs),
        vstd::set_lib::set_int_range(0, db.len() as int),
    );
}

pub proof fn lemma_weights_bounded(cs: Seq<ClauseView>)
    ensures
        weights(cs) <= 10 * cs.len(),
    decreases cs.len(),
{
    if cs.len() > 0 {
        lemma_weights_bounded(cs.drop_last());
    }
}

// ---------------------------------------------------------------------------
// Pages and contracts
// ---------------------------------------------------------------------------

pub open spec fn content_view(c: Option<Vec<u8>>) -> Option<Seq<u8>> {
    match c {
        Some(b) => Some(b@),
        None => None,
    }
}

/// Readable text of a page's content stream; empty where the page has none.
pub open spec fn page_text(content: Option<Seq<u8>>) -> Seq<char> {
    match content {
        Some(b) => readable_text(utf8_lossy(b)),
        None => Seq::empty(),
    }
}

/// Phrase score of a page text.
pub open spec fn page_score(t: Seq<char>) -> nat {
    phrase_score(
        hits(red_phrases_list(), t).len(),
        hits(yellow_phrases_list(), t).len(),
        hits(green_phrases_list(), t).len(),
    )
}

/// Whether `p` is the analysis of page `number` whose text is `t`.
pub open spec fn page_ok(p: PageRisk, number: u32, t: Seq<char>) -> bool {
    &&& p.page_number == number
    &&& p.text_preview@ == preview(t)
    &&& str_views(p.red_hits@) == hits(red_phrases_list(), t)
    &&& str_views(p.yellow_hits@) == hits(yellow_phrases_list(), t)
    &&& str_views(p.green_hits@) == hits(green_phrases_list(), t)
    &&& str_views(p.clause_refs@) == clause_refs(t)
    &&& p.risk_score == page_score(t)
    &&& p.risk_level == page_level(page_score(t))
}

/// Texts of the pages, in order.
pub open spec fn page_texts(pages: Seq<(u32, Option<Vec<u8>>)>) -> Seq<Seq<char>> {
    pages.map_values(|p: (u32, Option<Vec<u8>>)| page_text(content_view(p.1)))
}

/// Clause numbers of the pages one after the other (each page's without
/// repetition).
pub open spec fn concat_refs(ts: Seq<Seq<char>>) -> Seq<Seq<char>>
    decreases ts.len(),
{
    if ts.len() == 0 {
        Seq::empty()
    } else {
        concat_refs(ts.drop_last()) + clause_refs(ts.last())
    }
}

/// Number of phrase hits over all the texts.
pub open spec fn total_hits(ts: Seq<Seq<char>>, phrases: Seq<Seq<char>>) -> nat
    decreases ts.len(),
{
    if ts.len() == 0 {
        0
    } else {
        total_hits(ts.drop_last(), phrases) + hits(phrases, ts.last()).len()
    }
}

pub proof fn lemma_total_hits_bounded(ts: Seq<Seq<char>>, phrases: Seq<Seq<char>>)
    ensures
        total_hits(ts, phrases) <= ts.len() * phrases.len(),
    decreases ts.len(),
{
    if ts.len() > 0 {
        lemma_total_hits_bounded(ts.drop_last(), phrases);
        lemma_hits_len(phrases, ts.last());
        assert((ts.len() - 1) * phrases.len() + phrases.len() == ts.len() * phrases.len())
            by (nonlinear_arith);
    }
}

/// Summary line of a contract analysis.
pub open spec fn summary_text(
    pages: nat,
    refs: nat,
    known_count: nat,
    red: nat,
    yellow: nat,
    green: nat,
    level: RiskLevel,
) -> Seq<char> {
    crate::text::dec(pages) + " pages | "@ + crate::text::dec(refs) + " clauses detected ("@
        + crate::text::dec(known_count) + " known) | "@ + crate::text::dec(red) + " red / "@
        + crate::text::dec(yellow) + " yellow / "@ + crate::text::dec(green)
        + " green phrase hits | Overall: "@ + risk_name(level)
}

/// The result of analysing a contract.
#[derive(Debug, Clone)]
pub struct ContractAnalysis {
    pub file_path: String,
    pub total_pages: u32,
    pub pages: Vec<PageRisk>,
    pub all_clause_refs: Vec<String>,
    pub known_clauses: Vec<ClauseInfo>,
    pub red_phrase_total: usize,
    pub yellow_phrase_total: usize,
    pub green_phrase_total: usize,
    pub overall_score: u32,
    pub overall_risk: RiskLevel,
    pub summary: String,
}

/// Whether `a` is the analysis of the contract at `path` with the given
/// pages, against the clause database `db`.
pub open spec fn analysis_ok(
    a: ContractAnalysis,
    path: Seq<char>,
    pages: Seq<(u32, Option<Vec<u8>>)>,
    db: Seq<ClauseView>,
) -> bool {
    let ts = page_texts(pages);
    let refs = dedup(concat_refs(ts));
    let ks = known(db, refs);
    let red = total_hits(ts, red_phrases_list());
    let yellow = total_hits(ts, yellow_phrases_list());
    let green = total_hits(ts, green_phrases_list());
    let score = phrase_score(red, yellow, green) + weights(ks);
    &&& a.file_path@ == path
    &&& a.total_pages == pages.len()
    &&& a.pages@.len() == pages.len()
    &&& forall|i: int| 0 <= i < pages.len() ==> page_ok(#[trigger] a.pages@[i], pages[i].0, ts[i])
    &&& str_views(a.all_clause_refs@) == refs
    &&& a.known_clauses@.map_values(|c: ClauseInfo| c@) == ks
    &&& a.red_phrase_total == red
    &&& a.yellow_phrase_total == yellow
    &&& a.green_phrase_total == green
    &&& a.overall_score == score
    &&& a.overall_risk == contract_level(score)
    &&& a.summary@ == summary_text(pages.len(), refs.len(), ks.len(), red, yellow, green, contract_level(score))
}

/// Clause numbers present in one contract and not the other, and in both.
#[derive(Debug, Clone)]
pub struct ContractDiff {
    pub file_a: String,
    pub file_b: String,
    pub analysis_a: ContractAnalysis,
    pub analysis_b: ContractAnalysis,
    /// Clauses present in A but not B.
    pub only_in_a: Vec<String>,
    /// Clauses present in B but not A.
    pub only_in_b: Vec<String>,
    pub in_both: Vec<String>,
    /// Positive when B is riskier than A.
    pub risk_delta: i32,
}

/// Whether and where a clause number occurs in an analysed contract.
#[derive(Debug, Clone)]
pub struct ClauseCheckResult {
    pub clause_number: String,
    pub found: bool,
    pub pages_found: Vec<u32>,
    pub info: Option<ClauseInfo>,
}

/// The items of `s`, in order, that are (or are not) in `other`.
pub open spec fn keep_in(s: Seq<Seq<char>>, other: Seq<Seq<char>>, inside: bool) -> Seq<Seq<char>>
    decreases s.len(),
{
    if s.len() == 0 {
        Seq::empty()
    } else {
        let prev = keep_in(s.drop_last(), other, inside);
        if other.contains(s.last()) == inside {
            prev.push(s.last())
        } else {
            prev
        }
    }
}

/// A clause reference is kept exactly when it is a reference of `s` whose
/// presence in `other` is `inside`.
pub proof fn lemma_keep_in(s: Seq<Seq<char>>, other: Seq<Seq<char>>, inside: bool, x: Seq<char>)
    ensures
        keep_in(s, other, inside).contains(x) <==> (s.contains(x) && other.contains(x) == inside),
    decreases s.len(),
{
    if s.len() > 0 {
        let init = s.drop_last();
        lemma_keep_in(init, other, inside, x);
        let prev = keep_in(init, other, inside);
        if other.contains(s.last()) == inside {
            assert(prev.push(s.last())[prev.len() as int] == s.last());
            if prev.push(s.last()).contains(x) && x != s.last() {
                let i = choose|i: int| 0 <= i < prev.push(s.last()).len() && prev.push(s.last())[i] == x;
                assert(prev[i] == x);
            }
            if prev.contains(x) {
                let i = choose|i: int| 0 <= i < prev.len() && prev[i] == x;
                assert(prev.push(s.last())[i] == x);
            }
        }
        if s.contains(x) && x != s.last() {
            let i = choose|i: int| 0 <= i < s.len() && s[i] == x;
            assert(init[i] == x);
        }
        if init.contains(x) {
            let i = choose|i: int| 0 <= i < init.len() && init[i] == x;
            assert(s[i] == x);
        }
        assert(s[s.len() - 1] == s.last());
    }
}

/// Comparing two contracts splits each clause reference of the first into
/// exactly one of "only in the first" and "in both", and each of the second
/// that the first lacks goes to "only in the second".
pub proof fn lemma_diff_partition(a: Seq<Seq<char>>, b: Seq<Seq<char>>, x: Seq<char>)
    ensures
        keep_in(a, b, false).contains(x) <==> (a.contains(x) && !b.contains(x)),
        keep_in(a, b, true).contains(x) <==> (a.contains(x) && b.contains(x)),
        keep_in(b, a, false).contains(x) <==> (b.contains(x) && !a.contains(x)),
{
    lemma_keep_in(a, b, false, x);
    lemma_keep_in(a, b, true, x);
    lemma_keep_in(b, a, false, x);
}

proof fn lemma_keep_in_no_dup(s: Seq<Seq<char>>, other: Seq<Seq<char>>, inside: bool)
    requires
        s.no_duplicates(),
    ensures
        keep_in(s, other, inside).no_duplicates(),
    decreases s.len(),
{
    if s.len() > 0 {
        let d = s.drop_last();
        assert(d.no_duplicates()) by {
            assert forall|i: int, j: int| 0 <= i < d.len() && 0 <= j < d.len() && i != j implies d[i] != d[j] by {
                assert(d[i] == s[i] && d[j] == s[j]);
            }
        }
        lemma_keep_in_no_dup(d, other, inside);
        let prev = keep_in(d, other, inside);
        lemma_keep_in(d, other, inside, s.last());
        assert(!d.contains(s.last())) by {
            if d.contains(s.last()) {
                let i = choose|i: int| 0 <= i < d.len() && d[i] == s.last();
                assert(s[i] == s[s.len() - 1]);
            }
        }
        if other.contains(s.last()) == inside {
            let u = prev.push(s.last());
            assert forall|i: int, j: int| 0 <= i < u.len() && 0 <= j < u.len() && i != j implies u[i] != u[j] by {
                if i < prev.len() && j < prev.len() {
                } else if i < prev.len() {
                    assert(prev.contains(u[i]));
                } else {
                    assert(prev.contains(u[j]));
                }
            }
        }
    }
}

/// Comparing two contracts whose clause references are each listed once
/// yields three lists without repeats.
pub proof fn lemma_diff_no_duplicates(a: Seq<Seq<char>>, b: Seq<Seq<char>>)
    requires
        a.no_duplicates(),
        b.no_duplicates(),
    ensures
        keep_in(a, b, false).no_duplicates(),
        keep_in(a, b, true).no_duplicates(),
        keep_in(b, a, false).no_duplicates(),
{
    lemma_keep_in_no_dup(a, b, false);
    lemma_keep_in_no_dup(a, b, true);
    lemma_keep_in_no_dup(b, a, false);
}

/// As sets, comparing two contracts' clause references gives A − B, B − A
/// and A ∩ B.
pub proof fn lemma_diff_sets(a: Seq<Seq<char>>, b: Seq<Seq<char>>)
    ensures
        keep_in(a, b, false).to_set() == a.to_set().difference(b.to_set()),
        keep_in(b, a, false).to_set() == b.to_set().difference(a.to_set()),
        keep_in(a, b, true).to_set() == a.to_set().intersect(b.to_set()),
{
    assert forall|x: Seq<char>| #[trigger] keep_in(a, b, false).to_set().contains(x) == a.to_set().difference(
        b.to_set(),
    ).contains(x) by {
        lemma_diff_partition(a, b, x);
    }
    assert forall|x: Seq<char>| #[trigger] keep_in(b, a, false).to_set().contains(x) == b.to_set().difference(
        a.to_set(),
    ).contains(x) by {
        lemma_diff_partition(a, b, x);
    }
    assert forall|x: Seq<char>| #[trigger] keep_in(a, b, true).to_set().contains(x) == a.to_set().intersect(
        b.to_set(),
    ).contains(x) by {
        lemma_diff_partition(a, b, x);
    }
    assert(keep_in(a, b, false).to_set() =~= a.to_set().difference(b.to_set()));
    assert(keep_in(b, a, false).to_set() =~= b.to_set().difference(a.to_set()));
    assert(keep_in(a, b, true).to_set() =~= a.to_set().intersect(b.to_set()));
}

fn keep_in_vec(s: &Vec<Vec<char>>, other: &Vec<Vec<char>>, inside: bool) -> (r: Vec<Vec<char>>)
    ensures
        views(r@) == keep_in(views(s@), views(other@), inside),
{
    let ghost sv = views(s@);
    let mut out: Vec<Vec<char>> = Vec::new();
    let mut i: usize = 0;
    assert(sv.take(0) =~= Seq::<Seq<char>>::empty());
    while i < s.len()
        invariant
            i <= s.len(),
            sv == views(s@),
            views(out@) == keep_in(sv.take(i as int), views(other@), inside),
        decreases s.len() - i,
    {
        let ghost t = sv.take(i + 1);
        assert(t.drop_last() =~= sv.take(i as int));
        assert(t.last() == s@[i as int]@);
        if contains_piece(other, &s[i]) == inside {
            let ghost before = views(out@);
            out.push(s[i].clone());
            assert(views(out@) =~= before.push(s@[i as int]@));
        }
        i = i + 1;
    }
    assert(sv.take(s.len() as int) =~= sv);
    out
}

/// Numbers of the pages whose clause numbers include `n`.
pub open spec fn pages_with(pages: Seq<PageRisk>, n: Seq<char>) -> Seq<u32>
    decreases pages.len(),
{
    if pages.len() == 0 {
        Seq::empty()
    } else {
        let prev = pages_with(pages.drop_last(), n);
        if str_views(pages.last().clause_refs@).contains(n) {
            prev.push(pages.last().page_number)
        } else {
            prev
        }
    }
}

fn summary_line(
    pages: u64,
    refs: u64,
    known_count: u64,
    red: u64,
    yellow: u64,
    green: u64,
    level: RiskLevel,
) -> (r: String)
    ensures
        r@ == summary_text(
            pages as nat,
            refs as nat,
            known_count as nat,
            red as nat,
            yellow as nat,
            green as nat,
            level,
        ),
{
    let mut s = string_of(&crate::text::u64_to_dec(pages));
    s.append(" pages | ");
    s.append(string_of(&crate::text::u64_to_dec(refs)).as_str());
    s.append(" clauses detected (");
    s.append(string_of(&crate::text::u64_to_dec(known_count)).as_str());
    s.append(" known) | ");
    s.append(string_of(&crate::text::u64_to_dec(red)).as_str());
    s.append(" red / ");
    s.append(string_of(&crate::text::u64_to_dec(yellow)).as_str());
    s.append(" yellow / ");
    s.append(string_of(&crate::text::u64_to_dec(green)).as_str());
    s.append(" green phrase hits | Overall: ");
    s.append(level.as_str());
    s
}

/// Scans contract text for risk phrases and clause numbers.
pub struct Analyzer {
    clause_db: ClauseDb,
    clause_re: Matcher,
    red_res: Vec<Matcher>,
    yellow_res: Vec<Matcher>,
    green_res: Vec<Matcher>,
}

impl Analyzer {
    #[verifier::type_invariant]
    spec fn inv(&self) -> bool {
        &&& self.clause_re.pattern() == clause_pattern()
        &&& patterns_for(self.red_res@, red_phrases_list())
        &&& patterns_for(self.yellow_res@, yellow_phrases_list())
        &&& patterns_for(self.green_res@, green_phrases_list())
        &&& self.clause_db@ == clause_table()
        &&& numbers_and_risks(self.clause_db@) == clause_risk_table()
    }

    /// The clause database the analyzer looks numbers up in.
    pub closed spec fn db(&self) -> Seq<ClauseView> {
        self.clause_db@
    }

    /// Builds an analyzer over the full clause database; `None` where one of
    /// its patterns does not compile.
    pub fn new() -> (r: Option<Analyzer>)
        ensures
            r is Some <==> all_patterns_compile(),
            r matches Some(a) ==> a.db() == clause_table(),
            r matches Some(a) ==> numbers_and_risks(a.db()) == clause_risk_table(),
    {
        let clause_db = build_clause_db();
        let clause_re = match compile("\\b(252\\.\\d{3}-\\d{4}|52\\.\\d{3}-\\d{1,2})\\b") {
            Some(m) => m,
            None => {
                return None;
            },
        };
        let red_res = match compile_phrases(&red_phrases()) {
            Some(ms) => ms,
            None => {
                return None;
            },
        };
        let yellow_res = match compile_phrases(&yellow_phrases()) {
            Some(ms) => ms,
            None => {
                return None;
            },
        };
        let green_res = match compile_phrases(&green_phrases()) {
            Some(ms) => ms,
            None => {
                return None;
            },
        };
        Some(Analyzer { clause_db, clause_re, red_res, yellow_res, green_res })
    }

    /// The clause database.
    pub fn clause_db(&self) -> (r: &ClauseDb)
        ensures
            r@ == self.db(),
    {
        &self.clause_db
    }

    /// The risk phrases of one colour found in `text`: red, yellow or green
    /// as `level` says.
    pub fn find_hits(&self, text: &str, level: RiskLevel) -> (r: Vec<String>)
        ensures
            str_views(r@) == hits(
                match level {
                    RiskLevel::Red => red_phrases_list(),
                    RiskLevel::Yellow => yellow_phrases_list(),
                    RiskLevel::Green => green_phrases_list(),
                },
                text@,
            ),
    {
        proof {
            use_type_invariant(self);
        }
        match level {
            RiskLevel::Red => hits_in(&self.red_res, &red_phrases(), text),
            RiskLevel::Yellow => hits_in(&self.yellow_res, &yellow_phrases(), text),
            RiskLevel::Green => hits_in(&self.green_res, &green_phrases(), text),
        }
    }

    /// The distinct clause numbers in `text`, in order of appearance.
    pub fn find_clauses(&self, text: &str) -> (r: Vec<String>)
        ensures
            str_views(r@) == clause_refs(text@),
    {
        proof {
            use_type_invariant(self);
        }
        let found = find_all(&self.clause_re, text);
        let v = crate::text::char_vecs_of(&found);
        let d = dedup_vec(&v);
        strings_of(&d)
    }

    /// Analyses a contract from the content streams of its pages (page
    /// number and content, in page order; `None` for a page whose content
    /// could not be read).
    #[verifier::rlimit(40)]
    pub fn analyze(&self, file_path: &str, pages: &Vec<(u32, Option<Vec<u8>>)>) -> (r: ContractAnalysis)
        requires
            pages.len() <= 0x100_0000,
        ensures
            analysis_ok(r, file_path@, pages@, self.db()),
    {
        proof {
            use_type_invariant(self);
        }
        let ghost ts = page_texts(pages@);
        let mut out: Vec<PageRisk> = Vec::new();
        let mut all: Vec<Vec<char>> = Vec::new();
        let mut red: usize = 0;
        let mut yellow: usize = 0;
        let mut green: usize = 0;
        let mut i: usize = 0;
        assert(ts.take(0) =~= Seq::<Seq<char>>::empty());
        while i < pages.len()
            invariant
                i <= pages.len(),
                pages.len() <= 0x100_0000,
                ts == page_texts(pages@),
                out@.len() == i,
                forall|j: int| 0 <= j < i ==> page_ok(#[trigger] out@[j], pages@[j].0, ts[j]),
                views(all@) == concat_refs(ts.take(i as int)),
                red == total_hits(ts.take(i as int), red_phrases_list()),
                yellow == total_hits(ts.take(i as int), yellow_phrases_list()),
                green == total_hits(ts.take(i as int), green_phrases_list()),
                red <= 10 * i,
                yellow <= 10 * i,
                green <= 6 * i,
            decreases pages.len() - i,
        {
            let ghost t = ts.take(i + 1);
            assert(t.drop_last() =~= ts.take(i as int));
            assert(t.last() == ts[i as int]);
            let pr = self.page_risk(pages[i].0, &pages[i].1);
            proof {
                lemma_hits_len(red_phrases_list(), ts[i as int]);
                lemma_hits_len(yellow_phrases_list(), ts[i as int]);
                lemma_hits_len(green_phrases_list(), ts[i as int]);
            }
            assert(str_views(pr.red_hits@).len() == pr.red_hits@.len());
            assert(str_views(pr.yellow_hits@).len() == pr.yellow_hits@.len());
            assert(str_views(pr.green_hits@).len() == pr.green_hits@.len());
            red = red + pr.red_hits.len();
            yellow = yellow + pr.yellow_hits.len();
            green = green + pr.green_hits.len();
            let refs = crate::text::char_vecs_of(&pr.clause_refs);
            let ghost before = views(all@);
            let mut k: usize = 0;
            while k < refs.len()
                invariant
                    k <= refs.len(),
                    views(all@) == before + views(refs@).take(k as int),
                decreases refs.len() - k,
            {
                let ghost before2 = views(all@);
                all.push(refs[k].clone());
                assert(views(all@) =~= before2.push(refs@[k as int]@));
                assert(views(refs@).take(k + 1) =~= views(refs@).take(k as int).push(refs@[k as int]@));
                assert(views(all@) =~= before + views(refs@).take(k + 1));
                k = k + 1;
            }
            assert(views(refs@).take(refs.len() as int) =~= views(refs@));
            out.push(pr);
            i = i + 1;
        }
        assert(ts.take(pages.len() as int) =~= ts);
        let refs = dedup_vec(&all);
        proof {
            lemma_dedup(concat_refs(ts));
        }
        let mut known_clauses: Vec<ClauseInfo> = Vec::new();
        let mut clause_score: u32 = 0;
        let mut j: usize = 0;
        let ghost rv = views(refs@);
        assert(rv.take(0) =~= Seq::<Seq<char>>::empty());
        while j < refs.len()
            invariant
                j <= refs.len(),
                rv == views(refs@),
                rv == dedup(concat_refs(ts)),
                rv.no_duplicates(),
                numbers_and_risks(self.clause_db@) == clause_risk_table(),
                known_clauses@.map_values(|c: ClauseInfo| c@) == known(self.clause_db@, rv.take(j as int)),
                clause_score == weights(known(self.clause_db@, rv.take(j as int))),
            decreases refs.len() - j,
        {
            let ghost t = rv.take(j + 1);
            assert(t.drop_last() =~= rv.take(j as int));
            assert(t.last() == refs@[j as int]@);
            assert(t.no_duplicates());
            proof {
                lemma_known_bounded(self.clause_db@, t);
                lemma_weights_bounded(known(self.clause_db@, t));
                assert(numbers_and_risks(self.clause_db@).len() == 65);
            }
            let key = string_of(&refs[j]);
            match self.clause_db.get(key.as_str()) {
                Some(c) => {
                    let ghost before = known_clauses@.map_values(|c: ClauseInfo| c@);
                    assert(known(self.clause_db@, t) == known(self.clause_db@, rv.take(j as int)).push(c@));
                    assert(known(self.clause_db@, t).drop_last() =~= known(self.clause_db@, rv.take(j as int)));
                    assert(known(self.clause_db@, t).last() == c@);
                    assert(c@.2 == c.risk);
                    assert(weights(known(self.clause_db@, t)) == clause_score + risk_weight(c.risk));
                    assert(self.clause_db@.len() == 65);
                    clause_score = clause_score + c.weight_of();
                    known_clauses.push(c.duplicate());
                    assert(known_clauses@.map_values(|c: ClauseInfo| c@) =~= before.push(c@));
                },
                None => {
                    assert(known(self.clause_db@, t) == known(self.clause_db@, rv.take(j as int)));
                },
            }
            j = j + 1;
        }
        assert(rv.take(refs.len() as int) =~= rv);
        proof {
            lemma_total_hits_bounded(ts, red_phrases_list());
            lemma_total_hits_bounded(ts, yellow_phrases_list());
            lemma_total_hits_bounded(ts, green_phrases_list());
            lemma_known_bounded(self.clause_db@, rv);
            lemma_weights_bounded(known(self.clause_db@, rv));
            assert(numbers_and_risks(self.clause_db@).len() == 65);
        }
        let phrase = PageRisk::compute_score(red, yellow, green);
        let overall_score = phrase + clause_score;
        let overall_risk = if overall_score >= 40 {
            RiskLevel::Red
        } else if overall_score >= 12 {
            RiskLevel::Yellow
        } else {
            RiskLevel::Green
        };
        let total_pages = pages.len() as u32;
        let summary = summary_line(
            total_pages as u64,
            refs.len() as u64,
            known_clauses.len() as u64,
            red as u64,
            yellow as u64,
            green as u64,
            overall_risk,
        );
        assert(known_clauses@.map_values(|c: ClauseInfo| c@).len() == known_clauses@.len());
        ContractAnalysis {
            file_path: file_path.to_owned(),
            total_pages,
            pages: out,
            all_clause_refs: strings_of(&refs),
            known_clauses,
            red_phrase_total: red,
            yellow_phrase_total: yellow,
            green_phrase_total: green,
            overall_score,
            overall_risk,
            summary,
        }
    }

    /// Compares two analysed contracts by their clause numbers: those only in
    /// the first, only in the second, and in both (each in the order of the
    /// contract it is taken from), and the change in overall score.
    pub fn compare(&self, a: ContractAnalysis, b: ContractAnalysis) -> (r: ContractDiff)
        requires
            i32::MIN <= (b.overall_score as i32) - (a.overall_score as i32) <= i32::MAX,
        ensures
            r.file_a@ == a.file_path@,
            r.file_b@ == b.file_path@,
            r.analysis_a == a,
            r.analysis_b == b,
            str_views(r.only_in_a@) == keep_in(str_views(a.all_clause_refs@), str_views(b.all_clause_refs@), false),
            str_views(r.only_in_b@) == keep_in(str_views(b.all_clause_refs@), str_views(a.all_clause_refs@), false),
            str_views(r.in_both@) == keep_in(str_views(a.all_clause_refs@), str_views(b.all_clause_refs@), true),
            r.risk_delta == (b.overall_score as i32) - (a.overall_score as i32),
    {
        let av = crate::text::char_vecs_of(&a.all_clause_refs);
        let bv = crate::text::char_vecs_of(&b.all_clause_refs);
        let only_a = keep_in_vec(&av, &bv, false);
        let only_b = keep_in_vec(&bv, &av, false);
        let both = keep_in_vec(&av, &bv, true);
        let risk_delta = b.overall_score as i32 - a.overall_score as i32;
        ContractDiff {
            file_a: a.file_path.clone(),
            file_b: b.file_path.clone(),
            analysis_a: a,
            analysis_b: b,
            only_in_a: strings_of(&only_a),
            only_in_b: strings_of(&only_b),
            in_both: strings_of(&both),
            risk_delta,
        }
    }

    /// Whether a clause number occurs in an analysed contract, the pages it
    /// occurs on, and its database entry.
    pub fn check_clause(&self, analysis: &ContractAnalysis, clause_number: &str) -> (r: ClauseCheckResult)
        ensures
            r.clause_number@ == clause_number@,
            r.found == str_views(analysis.all_clause_refs@).contains(clause_number@),
            r.pages_found@ == pages_with(analysis.pages@, clause_number@),
            match r.info {
                Some(c) => lookup_clause(self.db(), clause_number@) == Some(c@),
                None => lookup_clause(self.db(), clause_number@) is None,
            },
    {
        let key = chars_of(clause_number);
        let all = crate::text::char_vecs_of(&analysis.all_clause_refs);
        let found = contains_piece(&all, &key);
        let mut pages_found: Vec<u32> = Vec::new();
        let mut i: usize = 0;
        assert(analysis.pages@.take(0) =~= Seq::<PageRisk>::empty());
        while i < analysis.pages.len()
            invariant
                i <= analysis.pages.len(),
                key@ == clause_number@,
                pages_found@ == pages_with(analysis.pages@.take(i as int), clause_number@),
            decreases analysis.pages.len() - i,
        {
            let ghost t = analysis.pages@.take(i + 1);
            assert(t.drop_last() =~= analysis.pages@.take(i as int));
            let refs = crate::text::char_vecs_of(&analysis.pages[i].clause_refs);
            if contains_piece(&refs, &key) {
                pages_found.push(analysis.pages[i].page_number);
            }
            i = i + 1;
        }
        assert(analysis.pages@.take(analysis.pages.len() as int) =~= analysis.pages@);
        let info = match self.clause_db.get(clause_number) {
            Some(c) => Some(c.duplicate()),
            None => None,
        };
        ClauseCheckResult { clause_number: clause_number.to_owned(), found, pages_found, info }
    }

    fn page_risk(&self, number: u32, content: &Option<Vec<u8>>) -> (r: PageRisk)
        ensures
            page_ok(r, number, page_text(content_view(*content))),
    {
        let text = match content {
            Some(b) => extract_readable_text(b),
            None => String::new(),
        };
        let red_hits = self.find_hits(text.as_str(), RiskLevel::Red);
        let yellow_hits = self.find_hits(text.as_str(), RiskLevel::Yellow);
        let green_hits = self.find_hits(text.as_str(), RiskLevel::Green);
        let clause_refs = self.find_clauses(text.as_str());
        proof {
            lemma_hits_len(red_phrases_list(), text@);
            lemma_hits_len(yellow_phrases_list(), text@);
            lemma_hits_len(green_phrases_list(), text@);
        }
        assert(str_views(red_hits@).len() == red_hits@.len());
        assert(str_views(yellow_hits@).len() == yellow_hits@.len());
        assert(str_views(green_hits@).len() == green_hits@.len());
        let score = PageRisk::compute_score(red_hits.len(), yellow_hits.len(), green_hits.len());
        let risk_level = PageRisk::score_to_level(score);
        let chars = chars_of(text.as_str());
        let p = preview_of(&chars);
        PageRisk {
            page_number: number,
            text_preview: string_of(&p),
            red_hits,
            yellow_hits,
            green_hits,
            clause_refs,
            risk_score: score,
            risk_level,
        }
    }
}


/// A clause number is among the pages' numbers exactly when one page has it.
pub proof fn lemma_concat_refs(ts: Seq<Seq<char>>, x: Seq<char>)
    ensures
        concat_refs(ts).contains(x) <==> exists|i: int| 0 <= i < ts.len() && #[trigger] clause_refs(ts[i]).contains(x),
    decreases ts.len(),
{
    if ts.len() > 0 {
        let d = ts.drop_last();
        lemma_concat_refs(d, x);
        let a = concat_refs(d);
        let b = clause_refs(ts.last());
        if (a + b).contains(x) {
            let j = choose|j: int| 0 <= j < (a + b).len() && (a + b)[j] == x;
            if j < a.len() {
                assert(a[j] == x);
                let i = choose|i: int| 0 <= i < d.len() && #[trigger] clause_refs(d[i]).contains(x);
                assert(ts[i] == d[i]);
            } else {
                assert(b[j - a.len()] == x);
                assert(clause_refs(ts[ts.len() - 1]).contains(x));
            }
        }
        if exists|i: int| 0 <= i < ts.len() && #[trigger] clause_refs(ts[i]).contains(x) {
            let i = choose|i: int| 0 <= i < ts.len() && #[trigger] clause_refs(ts[i]).contains(x);
            if i < d.len() {
                assert(d[i] == ts[i]);
                assert(a.contains(x));
                let j = choose|j: int| 0 <= j < a.len() && a[j] == x;
                assert((a + b)[j] == x);
            } else {
                let j = choose|j: int| 0 <= j < b.len() && b[j] == x;
                assert((a + b)[a.len() + j] == x);
            }
        }
    }
}

/// In an analysis, the contract's clause numbers are those found on its
/// pages, each listed once; there are no more known clauses than database
/// entries; and the overall risk follows the overall score.
pub proof fn lemma_analysis_refs(
    a: ContractAnalysis,
    path: Seq<char>,
    pages: Seq<(u32, Option<Vec<u8>>)>,
    db: Seq<ClauseView>,
)
    requires
        analysis_ok(a, path, pages, db),
    ensures
        str_views(a.all_clause_refs@).no_duplicates(),
        forall|x: Seq<char>|
            str_views(a.all_clause_refs@).contains(x) <==> exists|i: int|
                0 <= i < pages.len() && #[trigger] clause_refs(page_texts(pages)[i]).contains(x),
        a.known_clauses@.len() <= db.len(),
        a.overall_risk == contract_level(a.overall_score as nat),
{
    let ts = page_texts(pages);
    lemma_dedup(concat_refs(ts));
    assert forall|x: Seq<char>|
        str_views(a.all_clause_refs@).contains(x) <==> exists|i: int|
            0 <= i < pages.len() && #[trigger] clause_refs(page_texts(pages)[i]).contains(x) by {
        lemma_concat_refs(ts, x);
    }
    lemma_known_bounded(db, dedup(concat_refs(ts)));
    assert(a.known_clauses@.map_values(|c: ClauseInfo| c@).len() == a.known_clauses@.len());
}

/// The overall risk of an analysed contract is RED exactly when its overall
/// score is at least 40, YELLOW from 12 to 39 and GREEN below 12; its summary
/// ends by naming that level.
pub proof fn lemma_overall_risk_bands(
    a: ContractAnalysis,
    path: Seq<char>,
    pages: Seq<(u32, Option<Vec<u8>>)>,
    db: Seq<ClauseView>,
)
    requires
        analysis_ok(a, path, pages, db),
    ensures
        a.overall_risk == RiskLevel::Red <==> a.overall_score >= 40,
        a.overall_risk == RiskLevel::Yellow <==> 12 <= a.overall_score < 40,
        a.overall_risk == RiskLevel::Green <==> a.overall_score < 12,
        a.summary@.len() >= ("Overall: "@ + risk_name(a.overall_risk)).len(),
        a.summary@.subrange(
            a.summary@.len() - ("Overall: "@ + risk_name(a.overall_risk)).len(),
            a.summary@.len() as int,
        ) == "Overall: "@ + risk_name(a.overall_risk),
{
    lemma_analysis_refs(a, path, pages, db);
    let ts = page_texts(pages);
    let refs = dedup(concat_refs(ts));
    let ks = known(db, refs);
    let red = total_hits(ts, red_phrases_list());
    let yellow = total_hits(ts, yellow_phrases_list());
    let green = total_hits(ts, green_phrases_list());
    let tail = "Overall: "@ + risk_name(a.overall_risk);
    let head = crate::text::dec(pages.len()) + " pages | "@ + crate::text::dec(refs.len())
        + " clauses detected ("@ + crate::text::dec(ks.len()) + " known) | "@ + crate::text::dec(red)
        + " red / "@ + crate::text::dec(yellow) + " yellow / "@ + crate::text::dec(green) + " green phrase hits | "@;
    reveal_strlit(" green phrase hits | Overall: ");
    reveal_strlit(" green phrase hits | ");
    reveal_strlit("Overall: ");
    assert(" green phrase hits | Overall: "@ =~= " green phrase hits | "@ + "Overall: "@);
    assert(a.summary@ =~= head + tail);
    assert((head + tail).subrange(head.len() as int, (head + tail).len() as int) =~= tail);
}

/// A page is rated RED exactly when its score is at least 20, YELLOW from 5
/// to 19 and GREEN below 5.
pub proof fn lemma_page_risk_bands(p: PageRisk, number: u32, t: Seq<char>)
    requires
        page_ok(p, number, t),
    ensures
        p.risk_level == RiskLevel::Red <==> p.risk_score >= 20,
        p.risk_level == RiskLevel::Yellow <==> 5 <= p.risk_score < 20,
        p.risk_level == RiskLevel::Green <==> p.risk_score < 5,
{
}

} // verus!
