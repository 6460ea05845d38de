//! Solicitation-number recognition.
use vstd::prelude::*;
use crate::propbuilder::context::SolicitationMeta;
use crate::text::{
    char_boundary, char_len, char_len_exec, chars_of, contains, contains_str, has_char, is_alnum,
    is_alpha, is_digit, occurs_at, occurs_at_exec, split_ws, split_ws_vec, string_of, to_lowercase,
    trim, trim_vec, unicode_lower, utf8_len, views,
};

verus! {

/// Whether text looks like a government solicitation number: 8 to 25 bytes
/// of ASCII letters, digits and dashes, with at least one digit and one
/// letter.
pub open spec fn sol_number_like(s: Seq<char>) -> bool {
    &&& 8 <= utf8_len(s) <= 25
    &&& exists|i: int| 0 <= i < s.len() && is_digit(#[trigger] s[i])
    &&& exists|i: int| 0 <= i < s.len() && is_alpha(#[trigger] s[i])
    &&& forall|i: int| 0 <= i < s.len() ==> is_alnum(#[trigger] s[i]) || s[i] == '-'
}

/// Whether `s` looks like a solicitation number.
pub fn looks_like_sol_number(s: &str) -> (r: bool)
    ensures
        r == sol_number_like(s@),
{
    let v = chars_of(s);
    if !crate::text::utf8_len_gt(&v, 7) || crate::text::utf8_len_gt(&v, 25) {
        return false;
    }
    let mut has_digit = false;
    let mut has_alpha = false;
    let mut all_valid = true;
    let mut i: usize = 0;
    while i < v.len()
        invariant
            i <= v.len(),
            has_digit == exists|j: int| 0 <= j < i && is_digit(#[trigger] v@[j]),
            has_alpha == exists|j: int| 0 <= j < i && is_alpha(#[trigger] v@[j]),
            all_valid == forall|j: int| 0 <= j < i ==> is_alnum(#[trigger] v@[j]) || v@[j] == '-',
        decreases v.len() - i,
    {
        let c = v[i];
        if '0' <= c && c <= '9' {
            has_digit = true;
        }
        if ('A' <= c && c <= 'Z') || ('a' <= c && c <= 'z') {
            has_alpha = true;
        }
        if !(('A' <= c && c <= 'Z') || ('a' <= c && c <= 'z') || ('0' <= c && c <= '9') || c == '-') {
            all_valid = false;
        }
        proof {
            assert forall|j: int| 0 <= j < i + 1 && is_digit(#[trigger] v@[j]) implies (j < i || is_digit(c)) by {}
        }
        i = i + 1;
    }
    has_digit && has_alpha && all_valid
}


// ---------------------------------------------------------------------------
// Solicitation details from document text
// ---------------------------------------------------------------------------

/// The first word that looks like a solicitation number, or empty.
pub open spec fn first_sol_word(ws: Seq<Seq<char>>) -> Seq<char>
    decreases ws.len(),
{
    if ws.len() == 0 {
        Seq::empty()
    } else if sol_number_like(ws[0]) {
        ws[0]
    } else {
        first_sol_word(ws.drop_first())
    }
}

/// Position of the first occurrence of `p` in `s` at or after `i`, or -1.
pub open spec fn find_from(s: Seq<char>, p: Seq<char>, i: int) -> int
    decreases s.len() + 1 - i,
{
    if i < 0 || i + p.len() > s.len() {
        -1
    } else if occurs_at(s, p, i) {
        i
    } else {
        find_from(s, p, i + 1)
    }
}

/// `s` without its first `b` bytes (counted in whole characters).
pub open spec fn skip_bytes(s: Seq<char>, b: nat) -> Seq<char>
    decreases s.len(),
{
    if b == 0 || s.len() == 0 {
        s
    } else if char_len(s[0]) <= b {
        skip_bytes(s.drop_first(), (b - char_len(s[0])) as nat)
    } else {
        Seq::empty()
    }
}

/// `s` without its leading characters that are not ASCII digits.
pub open spec fn from_first_digit(s: Seq<char>) -> Seq<char>
    decreases s.len(),
{
    if s.len() == 0 || is_digit(s[0]) {
        s
    } else {
        from_first_digit(s.drop_first())
    }
}

/// At most the first `n` characters of `s`.
pub open spec fn first_chars(s: Seq<char>, n: nat) -> Seq<char> {
    if s.len() <= n {
        s
    } else {
        s.take(n as int)
    }
}

/// Byte offset in `lowered` of the first occurrence of `p`, if any.
pub open spec fn offset_of(lowered: Seq<char>, p: Seq<char>) -> Option<nat> {
    let i = find_from(lowered, p, 0);
    if i >= 0 {
        Some(utf8_len(lowered.take(i)))
    } else {
        None
    }
}

/// Whether the byte offsets found in the lowercase text fall between two
/// characters of the original text, where it is cut at them.
pub open spec fn offsets_fit(text: Seq<char>, lowered: Seq<char>) -> bool {
    &&& (offset_of(lowered, "contracting officer"@) matches Some(b) ==> char_boundary(text, b))
    &&& (offset_of(lowered, "due date"@) matches Some(b) ==> char_boundary(text, b))
}

/// Due date read after "due date": from the first digit of the 60
/// characters that follow, trimmed and cut to 20 characters.
pub open spec fn due_date_of(text: Seq<char>, lowered: Seq<char>) -> Seq<char> {
    match offset_of(lowered, "due date"@) {
        Some(b) => {
            let snippet = first_chars(skip_bytes(text, b), 60);
            let part = trim(from_first_digit(snippet));
            first_chars(part, 20)
        },
        None => Seq::empty(),
    }
}

/// Issuing agency named in the lowercase text.
pub open spec fn agency_of(lowered: Seq<char>) -> Seq<char> {
    if contains(lowered, "forest service"@) || contains(lowered, "usfs"@) {
        "USDA Forest Service"@
    } else if contains(lowered, "bureau of land management"@) || contains(lowered, "blm"@) {
        "Bureau of Land Management"@
    } else if contains(lowered, "department of defense"@) || contains(lowered, "dod"@) {
        "Department of Defense"@
    } else if contains(lowered, "department of the army"@) {
        "Department of the Army"@
    } else {
        Seq::empty()
    }
}

/// Whether `m` holds the details read from document text `text` whose
/// lowercase form is `lowered`: the solicitation number, due date and
/// agency; the other fields stay empty.
pub open spec fn meta_of(m: SolicitationMeta, text: Seq<char>, lowered: Seq<char>) -> bool {
    &&& m.number@ == first_sol_word(split_ws(text))
    &&& m.due_date@ == due_date_of(text, lowered)
    &&& m.agency@ == agency_of(lowered)
    &&& m.title@.len() == 0
    &&& m.co_name@.len() == 0
    &&& m.co_email@.len() == 0
    &&& m.issue_date@.len() == 0
}

fn first_sol_word_vec(ws: &Vec<Vec<char>>) -> (r: Vec<char>)
    ensures
        r@ == first_sol_word(views(ws@)),
{
    let ghost wv = views(ws@);
    let mut i: usize = 0;
    assert(wv.skip(0) =~= wv);
    while i < ws.len()
        invariant
            i <= ws.len(),
            wv == views(ws@),
            first_sol_word(wv) == first_sol_word(wv.skip(i as int)),
        decreases ws.len() - i,
    {
        let ghost rest = wv.skip(i as int);
        assert(rest[0] == ws@[i as int]@);
        assert(rest.drop_first() =~= wv.skip(i + 1));
        let w = string_of(&ws[i]);
        if looks_like_sol_number(w.as_str()) {
            return ws[i].clone();
        }
        i = i + 1;
    }
    assert(wv.skip(i as int) =~= Seq::<Seq<char>>::empty());
    Vec::new()
}

proof fn lemma_find_from(s: Seq<char>, p: Seq<char>, i: int)
    ensures
        find_from(s, p, i) >= 0 ==> find_from(s, p, i) + p.len() <= s.len(),
    decreases s.len() + 1 - i,
{
    if !(i < 0 || i + p.len() > s.len()) && !occurs_at(s, p, i) {
        lemma_find_from(s, p, i + 1);
    }
}

fn find_vec(s: &Vec<char>, p: &Vec<char>) -> (r: Option<usize>)
    ensures
        match r {
            Some(i) => find_from(s@, p@, 0) == i as int && i <= s.len(),
            None => find_from(s@, p@, 0) == -1,
        },
{
    proof {
        lemma_find_from(s@, p@, 0);
    }
    let mut i: usize = 0;
    while i <= s.len() && p.len() <= s.len() - i
        invariant
            i <= s.len() + 1,
            find_from(s@, p@, 0) == find_from(s@, p@, i as int),
            find_from(s@, p@, 0) >= 0 ==> find_from(s@, p@, 0) + p@.len() <= s@.len(),
        decreases s.len() + 1 - i,
    {
        if occurs_at_exec(s, p, i) {
            return Some(i);
        }
        if p.len() == 0 {
            assert(s@.subrange(i as int, i as int) =~= p@);
            assert(false);
        }
        i = i + 1;
    }
    None
}

/// Byte length of the first `k` characters.
fn bytes_before(v: &Vec<char>, k: usize) -> (r: u128)
    requires
        k <= v.len(),
    ensures
        r == utf8_len(v@.take(k as int)),
{
    let t = crate::text::slice_of(v, 0, k);
    assert(t@ =~= v@.take(k as int));
    crate::text::utf8_len_wide(&t)
}

/// Character position at byte offset `b`, where `b` falls between two
/// characters.
fn char_at_byte(v: &Vec<char>, b: u128) -> (r: Option<usize>)
    ensures
        match r {
            Some(k) => k <= v.len() && utf8_len(v@.take(k as int)) == b && skip_bytes(v@, b as nat) == v@.skip(k as int),
            None => !char_boundary(v@, b as nat),
        },
{
    let mut k: usize = 0;
    let mut used: u128 = 0;
    assert(v@.take(0) =~= Seq::<char>::empty());
    assert(v@.skip(0) =~= v@);
    while k < v.len() && used < b
        invariant
            k <= v.len(),
            used == utf8_len(v@.take(k as int)),
            used <= b,
            used <= 4 * k,
            skip_bytes(v@, b as nat) == skip_bytes(v@.skip(k as int), (b - used) as nat),
        decreases v.len() - k,
    {
        let c = char_len_exec(v[k]) as u128;
        let ghost rest = v@.skip(k as int);
        assert(rest[0] == v@[k as int]);
        assert(rest.drop_first() =~= v@.skip(k + 1));
        assert(v@.take(k + 1).drop_last() =~= v@.take(k as int));
        if used + c > b {
            proof {
                lemma_no_boundary(v@, k as int, b as nat);
            }
            return None;
        }
        used = used + c;
        k = k + 1;
    }
    if used == b {
        Some(k)
    } else {
        proof {
            assert(v@.take(k as int) =~= v@);
            lemma_boundary_bounded(v@, b as nat);
        }
        None
    }
}

/// Byte lengths of prefixes grow with the prefix.
proof fn lemma_prefix_bytes_monotone(s: Seq<char>, i: int, j: int)
    requires
        0 <= i <= j <= s.len(),
    ensures
        utf8_len(s.take(i)) <= utf8_len(s.take(j)),
        i < j ==> utf8_len(s.take(i)) + char_len(s[i]) <= utf8_len(s.take(j)),
    decreases j - i,
{
    if i < j {
        lemma_prefix_bytes_monotone(s, i, j - 1);
        assert(s.take(j).drop_last() =~= s.take(j - 1));
        assert(s.take(j).last() == s[j - 1]);
        if i < j - 1 {
            assert(utf8_len(s.take(i)) + char_len(s[i]) <= utf8_len(s.take(j - 1)));
        } else {
            assert(s.take(i + 1).drop_last() =~= s.take(i));
        }
    }
}

proof fn lemma_no_boundary(s: Seq<char>, k: int, b: nat)
    requires
        0 <= k < s.len(),
        utf8_len(s.take(k)) < b,
        utf8_len(s.take(k)) + char_len(s[k]) > b,
    ensures
        !char_boundary(s, b),
{
    if char_boundary(s, b) {
        let m = choose|m: int| 0 <= m <= s.len() && utf8_len(#[trigger] s.take(m)) == b;
        if m <= k {
            lemma_prefix_bytes_monotone(s, m, k);
        } else {
            lemma_prefix_bytes_monotone(s, k, m);
        }
    }
}

proof fn lemma_boundary_bounded(s: Seq<char>, b: nat)
    requires
        utf8_len(s) < b,
    ensures
        !char_boundary(s, b),
{
    if char_boundary(s, b) {
        let m = choose|m: int| 0 <= m <= s.len() && utf8_len(#[trigger] s.take(m)) == b;
        lemma_prefix_bytes_monotone(s, m, s.len() as int);
        assert(s.take(s.len() as int) =~= s);
    }
}

fn first_chars_vec(v: &Vec<char>, n: usize) -> (r: Vec<char>)
    ensures
        r@ == first_chars(v@, n as nat),
{
    if v.len() <= n {
        v.clone()
    } else {
        let r = crate::text::slice_of(v, 0, n);
        assert(r@ =~= v@.take(n as int));
        r
    }
}

fn due_date_vec(text: &Vec<char>, at: usize) -> (r: Vec<char>)
    requires
        at <= text.len(),
    ensures
        r@ == first_chars(trim(from_first_digit(first_chars(text@.skip(at as int), 60))), 20),
{
    let rest = crate::text::slice_of(text, at, text.len());
    assert(rest@ =~= text@.skip(at as int));
    let snippet = first_chars_vec(&rest, 60);
    let mut i: usize = 0;
    assert(snippet@.skip(0) =~= snippet@);
    while i < snippet.len() && !('0' <= snippet[i] && snippet[i] <= '9')
        invariant
            i <= snippet.len(),
            from_first_digit(snippet@) == from_first_digit(snippet@.skip(i as int)),
        decreases snippet.len() - i,
    {
        assert(snippet@.skip(i as int).drop_first() =~= snippet@.skip(i + 1));
        i = i + 1;
    }
    let tail = crate::text::slice_of(&snippet, i, snippet.len());
    assert(tail@ =~= snippet@.skip(i as int));
    let part = trim_vec(&tail);
    first_chars_vec(&part, 20)
}

/// Reads solicitation details from document text whose lowercase form is
/// `lowered`: the first word that looks like a solicitation number, the
/// due date after "due date", and the issuing agency.
pub fn sol_meta_from_lowercase(text: &str, lowered: &str) -> (r: SolicitationMeta)
    requires
        offsets_fit(text@, lowered@),
    ensures
        meta_of(r, text@, lowered@),
{
    let tv = chars_of(text);
    let lv = chars_of(lowered);
    let words = split_ws_vec(&tv);
    let number = string_of(&first_sol_word_vec(&words));
    let due_date = match find_vec(&lv, &chars_of("due date")) {
        Some(j) => {
            let b = bytes_before(&lv, j);
            match char_at_byte(&tv, b) {
                Some(k) => string_of(&due_date_vec(&tv, k)),
                None => String::new(),
            }
        },
        None => String::new(),
    };
    let agency = if contains_str(&lv, "forest service") || contains_str(&lv, "usfs") {
        "USDA Forest Service".to_owned()
    } else if contains_str(&lv, "bureau of land management") || contains_str(&lv, "blm") {
        "Bureau of Land Management".to_owned()
    } else if contains_str(&lv, "department of defense") || contains_str(&lv, "dod") {
        "Department of Defense".to_owned()
    } else if contains_str(&lv, "department of the army") {
        "Department of the Army".to_owned()
    } else {
        String::new()
    };
    SolicitationMeta {
        number,
        title: String::new(),
        due_date,
        co_name: String::new(),
        co_email: String::new(),
        agency,
        issue_date: String::new(),
    }
}

/// Reads solicitation details from the text of a solicitation document;
/// `None` where a phrase found in the lowercase text sits at a byte offset
/// that falls inside a character of the original text.
pub fn sol_meta_from_text(text: &str) -> (r: Option<SolicitationMeta>)
    ensures
        match r {
            Some(m) => offsets_fit(text@, unicode_lower(text@)) && meta_of(m, text@, unicode_lower(text@)),
            None => !offsets_fit(text@, unicode_lower(text@)),
        },
{
    let lowered = to_lowercase(text);
    let tv = chars_of(text);
    let lv = chars_of(lowered.as_str());
    let co_ok = match find_vec(&lv, &chars_of("contracting officer")) {
        Some(i) => char_at_byte(&tv, bytes_before(&lv, i)).is_some(),
        None => true,
    };
    let due_ok = match find_vec(&lv, &chars_of("due date")) {
        Some(j) => char_at_byte(&tv, bytes_before(&lv, j)).is_some(),
        None => true,
    };
    if co_ok && due_ok {
        Some(sol_meta_from_lowercase(text, lowered.as_str()))
    } else {
        None
    }
}

/// Any solicitation whose lowercase text mentions "forest service", or
/// mentions "usfs", is attributed to the USDA Forest Service; otherwise, in
/// this order, text naming the Bureau of Land Management ("blm"), the
/// Department of Defense ("dod") or the Department of the Army is attributed
/// to it; text naming none of them has no agency.
pub proof fn lemma_forest_service_agency(m: SolicitationMeta, text: Seq<char>, lowered: Seq<char>)
    requires
        meta_of(m, text, lowered),
    ensures
        contains(lowered, "forest service"@) ==> m.agency@ == "USDA Forest Service"@,
        contains(lowered, "usfs"@) ==> m.agency@ == "USDA Forest Service"@,
        !contains(lowered, "forest service"@) && !contains(lowered, "usfs"@) && (contains(
            lowered,
            "bureau of land management"@,
        ) || contains(lowered, "blm"@)) ==> m.agency@ == "Bureau of Land Management"@,
        !contains(lowered, "forest service"@) && !contains(lowered, "usfs"@) && !contains(
            lowered,
            "bureau of land management"@,
        ) && !contains(lowered, "blm"@) && (contains(lowered, "department of defense"@) || contains(
            lowered,
            "dod"@,
        )) ==> m.agency@ == "Department of Defense"@,
        !contains(lowered, "forest service"@) && !contains(lowered, "usfs"@) && !contains(
            lowered,
            "bureau of land management"@,
        ) && !contains(lowered, "blm"@) && !contains(lowered, "department of defense"@) && !contains(
            lowered,
            "dod"@,
        ) ==> (m.agency@ == "Department of the Army"@ <==> contains(lowered, "department of the army"@)),
        !contains(lowered, "forest service"@) && !contains(lowered, "usfs"@) && !contains(
            lowered,
            "bureau of land management"@,
        ) && !contains(lowered, "blm"@) && !contains(lowered, "department of defense"@) && !contains(
            lowered,
            "dod"@,
        ) && !contains(lowered, "department of the army"@) ==> m.agency@.len() == 0,
{
    reveal_strlit("Department of the Army");
    assert("Department of the Army"@.len() > 0);
    assert(Seq::<char>::empty().len() == 0);
}

} // verus!
