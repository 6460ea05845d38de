//! Deadline parsing: human-readable date phrases to calendar dates.
//!
//! Understood: ISO dates (`2026-04-15`), US dates (`04/15/2026`,
//! `04/15/26`), `April 15, 2026` / `Apr 15 2026`, `April 15` (this year, or
//! next year once the day has passed), `15 April 2026`, and the relative
//! phrases `end of week`, `end of month`, `next Monday` and plain weekday
//! names, each optionally preceded by `by`. Calendar work is done by `chrono`.
use vstd::prelude::*;
use crate::calendar::{
    add_days, chrono_add_days, chrono_days_between, date_before, last_day_of, chrono_parse, chrono_weekday, chrono_ymd_valid,
    date_from_ymd, is_date, last_day_of_month, local_today, max_year, opt_ymd, parse_date, weekday_of,
    ymd, Date,
};
use crate::text::{
    is_ws, trim_end, trim_start, ascii_lower, chars_of, concat_vec, contains, dec_int, eq_str, i64_to_dec, lower_vec, starts_with,
    string_of, trim, trim_vec, vec_contains, vec_starts_with,
};

verus! {

// ---------------------------------------------------------------------------
// The phrase grammar.

/// `s` with every `c` removed (`str::replace(c, "")`).
pub open spec fn without_char(s: Seq<char>, c: char) -> Seq<char>
    decreases s.len(),
{
    if s.len() == 0 {
        s
    } else {
        without_char(s.drop_last(), c) + if s.last() == c {
            Seq::empty()
        } else {
            seq![s.last()]
        }
    }
}

/// `str::trim_start_matches(p)`: every leading repetition of `p` removed.
pub open spec fn strip_prefixes(s: Seq<char>, p: Seq<char>) -> Seq<char>
    decreases s.len(),
{
    if p.len() > 0 && starts_with(s, p) {
        strip_prefixes(s.skip(p.len() as int), p)
    } else {
        s
    }
}

/// A weekday named in full or abbreviated, any case, counted from Monday.
pub open spec fn weekday_named(s: Seq<char>) -> Option<nat> {
    let l = ascii_lower(trim(s));
    if l == "monday"@ || l == "mon"@ {
        Some(0)
    } else if l == "tuesday"@ || l == "tue"@ || l == "tues"@ {
        Some(1)
    } else if l == "wednesday"@ || l == "wed"@ {
        Some(2)
    } else if l == "thursday"@ || l == "thu"@ || l == "thurs"@ {
        Some(3)
    } else if l == "friday"@ || l == "fri"@ {
        Some(4)
    } else if l == "saturday"@ || l == "sat"@ {
        Some(5)
    } else if l == "sunday"@ || l == "sun"@ {
        Some(6)
    } else {
        None
    }
}

/// Days from a day with weekday `from` to the next day, at least one day
/// ahead, whose weekday is `to`.
pub open spec fn days_until(from: int, to: int) -> int {
    (to - from + 6) % 7 + 1
}

/// Days from a day with weekday `dow` to the Sunday ending its week.
pub open spec fn days_to_sunday(dow: int) -> int {
    if dow == 6 {
        0
    } else {
        6 - dow
    }
}

/// The first day with weekday `day` after `today`.
pub open spec fn next_weekday_date(today: (int, int, int), day: nat) -> (int, int, int) {
    chrono_add_days(
        today.0,
        today.1,
        today.2,
        days_until(chrono_weekday(today.0, today.1, today.2), day as int),
    )
}

/// The relative phrases, on trimmed text.
pub open spec fn relative_deadline(t: Seq<char>, today: (int, int, int)) -> Option<(int, int, int)> {
    let lower = trim(strip_prefixes(ascii_lower(t), "by"@));
    if contains(lower, "end of week"@) {
        Some(
            chrono_add_days(
                today.0,
                today.1,
                today.2,
                days_to_sunday(chrono_weekday(today.0, today.1, today.2)),
            ),
        )
    } else if contains(lower, "end of month"@) {
        Some(last_day_of(today.0, today.1))
    } else {
        match weekday_named(trim(strip_prefixes(lower, "next"@))) {
            Some(day) => Some(next_weekday_date(today, day)),
            None => match weekday_named(lower) {
                Some(day) => Some(next_weekday_date(today, day)),
                None => None,
            },
        }
    }
}

/// A month and day read with this year, moved to next year once passed.
pub open spec fn month_day_with(t: Seq<char>, today: (int, int, int), fmt: Seq<char>) -> Option<(int, int, int)> {
    match chrono_parse(t + " "@ + dec_int(today.0), fmt) {
        Some(d) => Some(
            if date_before(d, today) && chrono_ymd_valid(today.0 + 1, d.1, d.2) {
                (today.0 + 1, d.1, d.2)
            } else {
                d
            },
        ),
        None => None,
    }
}

/// A month and day without a year is read as its next occurrence: never a
/// day before `today`, unless that month and day do not exist next year
/// (February 29 before a common year).
pub proof fn lemma_month_day_not_past(t: Seq<char>, today: (int, int, int), fmt: Seq<char>)
    ensures
        month_day_with(t, today, fmt) matches Some(x) ==> !date_before(x, today) || !chrono_ymd_valid(
            today.0 + 1,
            x.1,
            x.2,
        ),
{
}

/// The reading of a deadline phrase on the day `today`.
pub open spec fn deadline_on(s: Seq<char>, today: (int, int, int)) -> Option<(int, int, int)> {
    let t = trim(s);
    let no_commas = trim(without_char(t, ','));
    if chrono_parse(t, "%Y-%m-%d"@) is Some {
        chrono_parse(t, "%Y-%m-%d"@)
    } else if chrono_parse(t, "%m/%d/%Y"@) is Some {
        chrono_parse(t, "%m/%d/%Y"@)
    } else if chrono_parse(t, "%m/%d/%y"@) is Some {
        chrono_parse(t, "%m/%d/%y"@)
    } else if chrono_parse(no_commas, "%B %d %Y"@) is Some {
        chrono_parse(no_commas, "%B %d %Y"@)
    } else if chrono_parse(no_commas, "%b %d %Y"@) is Some {
        chrono_parse(no_commas, "%b %d %Y"@)
    } else if month_day_with(t, today, "%B %d %Y"@) is Some {
        month_day_with(t, today, "%B %d %Y"@)
    } else if month_day_with(t, today, "%b %d %Y"@) is Some {
        month_day_with(t, today, "%b %d %Y"@)
    } else if chrono_parse(t, "%d %B %Y"@) is Some {
        chrono_parse(t, "%d %B %Y"@)
    } else if chrono_parse(t, "%d %b %Y"@) is Some {
        chrono_parse(t, "%d %b %Y"@)
    } else {
        relative_deadline(t, today)
    }
}

fn remove_char(v: &Vec<char>, c: char) -> (r: Vec<char>)
    ensures
        r@ == without_char(v@, c),
{
    let mut out: Vec<char> = Vec::new();
    let mut i: usize = 0;
    while i < v.len()
        invariant
            i <= v.len(),
            out@ == without_char(v@.take(i as int), c),
        decreases v.len() - i,
    {
        assert(v@.take(i + 1).drop_last() =~= v@.take(i as int));
        if v[i] != c {
            out.push(v[i]);
        }
        proof {
            let ghost w = without_char(v@.take(i + 1), c);
            if v@[i as int] == c {
                assert(w =~= without_char(v@.take(i as int), c));
            } else {
                assert(w =~= without_char(v@.take(i as int), c).push(v@[i as int]));
            }
        }
        i = i + 1;
    }
    assert(v@.take(v.len() as int) =~= v@);
    out
}

proof fn lemma_strip_prefixes_skip(s: Seq<char>, p: Seq<char>, i: int)
    requires
        p.len() > 0,
        0 <= i <= s.len(),
        starts_with(s.skip(i), p),
    ensures
        strip_prefixes(s.skip(i), p) == strip_prefixes(s.skip(i + p.len()), p),
{
    assert(s.skip(i).skip(p.len() as int) =~= s.skip(i + p.len()));
}

fn strip_prefixes_vec(v: &Vec<char>, p: &str) -> (r: Vec<char>)
    requires
        p@.len() > 0,
    ensures
        r@ == strip_prefixes(v@, p@),
{
    let pv = chars_of(p);
    let mut i: usize = 0;
    assert(v@.skip(0) =~= v@);
    loop
        invariant
            i <= v.len(),
            pv@ == p@,
            p@.len() > 0,
            strip_prefixes(v@, p@) == strip_prefixes(v@.skip(i as int), p@),
        decreases v.len() - i,
    {
        let rest = crate::text::slice_of(v, i, v.len());
        assert(rest@ =~= v@.skip(i as int));
        if vec_starts_with(&rest, &pv) {
            proof {
                lemma_strip_prefixes_skip(v@, p@, i as int);
            }
            i = i + pv.len();
        } else {
            return rest;
        }
    }
}

fn weekday_named_exec(v: &Vec<char>) -> (r: Option<u32>)
    ensures
        match r {
            Some(d) => weekday_named(v@) == Some(d as nat),
            None => weekday_named(v@) is None,
        },
{
    let l = lower_vec(&trim_vec(v));
    if eq_str(&l, "monday") || eq_str(&l, "mon") {
        Some(0)
    } else if eq_str(&l, "tuesday") || eq_str(&l, "tue") || eq_str(&l, "tues") {
        Some(1)
    } else if eq_str(&l, "wednesday") || eq_str(&l, "wed") {
        Some(2)
    } else if eq_str(&l, "thursday") || eq_str(&l, "thu") || eq_str(&l, "thurs") {
        Some(3)
    } else if eq_str(&l, "friday") || eq_str(&l, "fri") {
        Some(4)
    } else if eq_str(&l, "saturday") || eq_str(&l, "sat") {
        Some(5)
    } else if eq_str(&l, "sunday") || eq_str(&l, "sun") {
        Some(6)
    } else {
        None
    }
}

/// The first day after `today` whose weekday is `day` (Monday is 0): one to
/// seven days ahead, on that weekday.
pub fn next_weekday(today: Date, day: u32) -> (r: Date)
    requires
        is_date(ymd(today)),
        today.year < max_year(),
        day < 7,
    ensures
        ymd(r) == next_weekday_date(ymd(today), day as nat),
        is_date(ymd(r)),
        chrono_weekday(r.year as int, r.month as int, r.day as int) == day,
        1 <= chrono_days_between(ymd(r), ymd(today)) <= 7,
{
    let dow = weekday_of(today);
    let k = (day + 6 - dow) % 7 + 1;
    assert(k == days_until(dow as int, day as int));
    assert((dow + k) % 7 == day as int) by {
        if day + 6 - dow < 7 {
            assert(k == day + 7 - dow);
        } else {
            assert(k == day - dow);
        }
    }
    add_days(today, k)
}

/// The Sunday that ends the week of `today` (today itself on a Sunday):
/// up to six days ahead.
pub fn end_of_week(today: Date) -> (r: Date)
    requires
        is_date(ymd(today)),
        today.year < max_year(),
    ensures
        ymd(r) == chrono_add_days(
            today.year as int,
            today.month as int,
            today.day as int,
            days_to_sunday(chrono_weekday(today.year as int, today.month as int, today.day as int)),
        ),
        is_date(ymd(r)),
        chrono_weekday(r.year as int, r.month as int, r.day as int) == 6,
        0 <= chrono_days_between(ymd(r), ymd(today)) <= 6,
{
    let dow = weekday_of(today);
    let k: u32 = if dow == 6 { 0 } else { 6 - dow };
    add_days(today, k)
}

fn relative_exec(t: &Vec<char>, today: Date) -> (r: Option<Date>)
    requires
        is_date(ymd(today)),
        today.year < max_year(),
    ensures
        opt_ymd(r) == relative_deadline(t@, ymd(today)),
{
    proof {
        reveal_strlit("by");
        reveal_strlit("next");
    }
    let lower = trim_vec(&strip_prefixes_vec(&lower_vec(t), "by"));
    if vec_contains(&lower, &chars_of("end of week")) {
        return Some(end_of_week(today));
    }
    if vec_contains(&lower, &chars_of("end of month")) {
        return Some(last_day_of_month(today.year, today.month));
    }
    let after_next = trim_vec(&strip_prefixes_vec(&lower, "next"));
    match weekday_named_exec(&after_next) {
        Some(day) => Some(next_weekday(today, day)),
        None => match weekday_named_exec(&lower) {
            Some(day) => Some(next_weekday(today, day)),
            None => None,
        },
    }
}

fn month_day_exec(t: &Vec<char>, today: Date, fmt: &str) -> (r: Option<Date>)
    requires
        is_date(ymd(today)),
        today.year < max_year(),
    ensures
        opt_ymd(r) == month_day_with(t@, ymd(today), fmt@),
{
    let mut text = string_of(t);
    text.append(" ");
    let y = string_of(&i64_to_dec(today.year as i64));
    text.append(y.as_str());
    proof {
        reveal_strlit(" ");
    }
    assert(text@ =~= t@ + " "@ + dec_int(today.year as int));
    match parse_date(text.as_str(), fmt) {
        Some(d) => {
            let before = d.year < today.year || (d.year == today.year && (d.month < today.month || (
            d.month == today.month && d.day < today.day)));
            if before {
                match date_from_ymd(today.year + 1, d.month, d.day) {
                    Some(n) => Some(n),
                    None => Some(d),
                }
            } else {
                Some(d)
            }
        },
        None => None,
    }
}

/// Reads a deadline phrase relative to the day `today`.
pub fn parse_deadline_on(s: &str, today: Date) -> (r: Option<Date>)
    requires
        is_date(ymd(today)),
        today.year < max_year(),
    ensures
        opt_ymd(r) == deadline_on(s@, ymd(today)),
{
    let tv = trim_vec(&chars_of(s));
    let t = string_of(&tv);
    let nc = string_of(&trim_vec(&remove_char(&tv, ',')));
    if let Some(d) = parse_date(t.as_str(), "%Y-%m-%d") {
        return Some(d);
    }
    if let Some(d) = parse_date(t.as_str(), "%m/%d/%Y") {
        return Some(d);
    }
    if let Some(d) = parse_date(t.as_str(), "%m/%d/%y") {
        return Some(d);
    }
    if let Some(d) = parse_date(nc.as_str(), "%B %d %Y") {
        return Some(d);
    }
    if let Some(d) = parse_date(nc.as_str(), "%b %d %Y") {
        return Some(d);
    }
    if let Some(d) = month_day_exec(&tv, today, "%B %d %Y") {
        return Some(d);
    }
    if let Some(d) = month_day_exec(&tv, today, "%b %d %Y") {
        return Some(d);
    }
    if let Some(d) = parse_date(t.as_str(), "%d %B %Y") {
        return Some(d);
    }
    if let Some(d) = parse_date(t.as_str(), "%d %b %Y") {
        return Some(d);
    }
    relative_exec(&tv, today)
}

/// Reads a deadline phrase relative to the local date now. Where the clock
/// stands in `chrono`'s last representable year, nothing is read.
pub fn parse_deadline(s: &str) -> (r: Option<Date>)
    ensures
        exists|today: Date|
            #![trigger ymd(today)]
            is_date(ymd(today)) && (if today.year < max_year() {
                opt_ymd(r) == deadline_on(s@, ymd(today))
            } else {
                r is None
            }),
{
    let today = local_today();
    if today.year < 262142 {
        parse_deadline_on(s, today)
    } else {
        None
    }
}


/// Every spelling of a weekday that deadlines accept, with the day it names
/// (Monday is 0, Sunday 6).
pub open spec fn weekday_spellings() -> Seq<(Seq<char>, nat)> {
    seq![
        ("monday"@, 0nat),
        ("mon"@, 0nat),
        ("tuesday"@, 1nat),
        ("tue"@, 1nat),
        ("tues"@, 1nat),
        ("wednesday"@, 2nat),
        ("wed"@, 2nat),
        ("thursday"@, 3nat),
        ("thu"@, 3nat),
        ("thurs"@, 3nat),
        ("friday"@, 4nat),
        ("fri"@, 4nat),
        ("saturday"@, 5nat),
        ("sat"@, 5nat),
        ("sunday"@, 6nat),
        ("sun"@, 6nat),
    ]
}

/// The weekday spellings are pairwise different.
proof fn lemma_weekday_spellings_differ()
    ensures
        "monday"@ != "mon"@,
        "monday"@ != "tuesday"@,
        "monday"@ != "tue"@,
        "monday"@ != "tues"@,
        "monday"@ != "wednesday"@,
        "monday"@ != "wed"@,
        "monday"@ != "thursday"@,
        "monday"@ != "thu"@,
        "monday"@ != "thurs"@,
        "monday"@ != "friday"@,
        "monday"@ != "fri"@,
        "monday"@ != "saturday"@,
        "monday"@ != "sat"@,
        "monday"@ != "sunday"@,
        "monday"@ != "sun"@,
        "mon"@ != "tuesday"@,
        "mon"@ != "tue"@,
        "mon"@ != "tues"@,
        "mon"@ != "wednesday"@,
        "mon"@ != "wed"@,
        "mon"@ != "thursday"@,
        "mon"@ != "thu"@,
        "mon"@ != "thurs"@,
        "mon"@ != "friday"@,
        "mon"@ != "fri"@,
        "mon"@ != "saturday"@,
        "mon"@ != "sat"@,
        "mon"@ != "sunday"@,
        "mon"@ != "sun"@,
        "tuesday"@ != "tue"@,
        "tuesday"@ != "tues"@,
        "tuesday"@ != "wednesday"@,
        "tuesday"@ != "wed"@,
        "tuesday"@ != "thursday"@,
        "tuesday"@ != "thu"@,
        "tuesday"@ != "thurs"@,
        "tuesday"@ != "friday"@,
        "tuesday"@ != "fri"@,
        "tuesday"@ != "saturday"@,
        "tuesday"@ != "sat"@,
        "tuesday"@ != "sunday"@,
        "tuesday"@ != "sun"@,
        "tue"@ != "tues"@,
        "tue"@ != "wednesday"@,
        "tue"@ != "wed"@,
        "tue"@ != "thursday"@,
        "tue"@ != "thu"@,
        "tue"@ != "thurs"@,
        "tue"@ != "friday"@,
        "tue"@ != "fri"@,
        "tue"@ != "saturday"@,
        "tue"@ != "sat"@,
        "tue"@ != "sunday"@,
        "tue"@ != "sun"@,
        "tues"@ != "wednesday"@,
        "tues"@ != "wed"@,
        "tues"@ != "thursday"@,
        "tues"@ != "thu"@,
        "tues"@ != "thurs"@,
        "tues"@ != "friday"@,
        "tues"@ != "fri"@,
        "tues"@ != "saturday"@,
        "tues"@ != "sat"@,
        "tues"@ != "sunday"@,
        "tues"@ != "sun"@,
        "wednesday"@ != "wed"@,
        "wednesday"@ != "thursday"@,
        "wednesday"@ != "thu"@,
        "wednesday"@ != "thurs"@,
        "wednesday"@ != "friday"@,
        "wednesday"@ != "fri"@,
        "wednesday"@ != "saturday"@,
        "wednesday"@ != "sat"@,
        "wednesday"@ != "sunday"@,
        "wednesday"@ != "sun"@,
        "wed"@ != "thursday"@,
        "wed"@ != "thu"@,
        "wed"@ != "thurs"@,
        "wed"@ != "friday"@,
        "wed"@ != "fri"@,
        "wed"@ != "saturday"@,
        "wed"@ != "sat"@,
        "wed"@ != "sunday"@,
        "wed"@ != "sun"@,
        "thursday"@ != "thu"@,
        "thursday"@ != "thurs"@,
        "thursday"@ != "friday"@,
        "thursday"@ != "fri"@,
        "thursday"@ != "saturday"@,
        "thursday"@ != "sat"@,
        "thursday"@ != "sunday"@,
        "thursday"@ != "sun"@,
        "thu"@ != "thurs"@,
        "thu"@ != "friday"@,
        "thu"@ != "fri"@,
        "thu"@ != "saturday"@,
        "thu"@ != "sat"@,
        "thu"@ != "sunday"@,
        "thu"@ != "sun"@,
        "thurs"@ != "friday"@,
        "thurs"@ != "fri"@,
        "thurs"@ != "saturday"@,
        "thurs"@ != "sat"@,
        "thurs"@ != "sunday"@,
        "thurs"@ != "sun"@,
        "friday"@ != "fri"@,
        "friday"@ != "saturday"@,
        "friday"@ != "sat"@,
        "friday"@ != "sunday"@,
        "friday"@ != "sun"@,
        "fri"@ != "saturday"@,
        "fri"@ != "sat"@,
        "fri"@ != "sunday"@,
        "fri"@ != "sun"@,
        "saturday"@ != "sat"@,
        "saturday"@ != "sunday"@,
        "saturday"@ != "sun"@,
        "sat"@ != "sunday"@,
        "sat"@ != "sun"@,
        "sunday"@ != "sun"@,
{
    reveal_strlit("monday");
    reveal_strlit("mon");
    reveal_strlit("tuesday");
    reveal_strlit("tue");
    reveal_strlit("tues");
    reveal_strlit("wednesday");
    reveal_strlit("wed");
    reveal_strlit("thursday");
    reveal_strlit("thu");
    reveal_strlit("thurs");
    reveal_strlit("friday");
    reveal_strlit("fri");
    reveal_strlit("saturday");
    reveal_strlit("sat");
    reveal_strlit("sunday");
    reveal_strlit("sun");
    assert("monday"@.len() == 6 && "monday"@[0] == 'm' && "monday"@[1] == 'o' && "monday"@[2] == 'n' && "monday"@[3] == 'd' && "monday"@[4] == 'a' && "monday"@[5] == 'y');
    assert("mon"@.len() == 3 && "mon"@[0] == 'm' && "mon"@[1] == 'o' && "mon"@[2] == 'n');
    assert("tuesday"@.len() == 7 && "tuesday"@[0] == 't' && "tuesday"@[1] == 'u' && "tuesday"@[2] == 'e' && "tuesday"@[3] == 's' && "tuesday"@[4] == 'd' && "tuesday"@[5] == 'a' && "tuesday"@[6] == 'y');
    assert("tue"@.len() == 3 && "tue"@[0] == 't' && "tue"@[1] == 'u' && "tue"@[2] == 'e');
    assert("tues"@.len() == 4 && "tues"@[0] == 't' && "tues"@[1] == 'u' && "tues"@[2] == 'e' && "tues"@[3] == 's');
    assert("wednesday"@.len() == 9 && "wednesday"@[0] == 'w' && "wednesday"@[1] == 'e' && "wednesday"@[2] == 'd' && "wednesday"@[3] == 'n' && "wednesday"@[4] == 'e' && "wednesday"@[5] == 's' && "wednesday"@[6] == 'd' && "wednesday"@[7] == 'a' && "wednesday"@[8] == 'y');
    assert("wed"@.len() == 3 && "wed"@[0] == 'w' && "wed"@[1] == 'e' && "wed"@[2] == 'd');
    assert("thursday"@.len() == 8 && "thursday"@[0] == 't' && "thursday"@[1] == 'h' && "thursday"@[2] == 'u' && "thursday"@[3] == 'r' && "thursday"@[4] == 's' && "thursday"@[5] == 'd' && "thursday"@[6] == 'a' && "thursday"@[7] == 'y');
    assert("thu"@.len() == 3 && "thu"@[0] == 't' && "thu"@[1] == 'h' && "thu"@[2] == 'u');
    assert("thurs"@.len() == 5 && "thurs"@[0] == 't' && "thurs"@[1] == 'h' && "thurs"@[2] == 'u' && "thurs"@[3] == 'r' && "thurs"@[4] == 's');
    assert("friday"@.len() == 6 && "friday"@[0] == 'f' && "friday"@[1] == 'r' && "friday"@[2] == 'i' && "friday"@[3] == 'd' && "friday"@[4] == 'a' && "friday"@[5] == 'y');
    assert("fri"@.len() == 3 && "fri"@[0] == 'f' && "fri"@[1] == 'r' && "fri"@[2] == 'i');
    assert("saturday"@.len() == 8 && "saturday"@[0] == 's' && "saturday"@[1] == 'a' && "saturday"@[2] == 't' && "saturday"@[3] == 'u' && "saturday"@[4] == 'r' && "saturday"@[5] == 'd' && "saturday"@[6] == 'a' && "saturday"@[7] == 'y');
    assert("sat"@.len() == 3 && "sat"@[0] == 's' && "sat"@[1] == 'a' && "sat"@[2] == 't');
    assert("sunday"@.len() == 6 && "sunday"@[0] == 's' && "sunday"@[1] == 'u' && "sunday"@[2] == 'n' && "sunday"@[3] == 'd' && "sunday"@[4] == 'a' && "sunday"@[5] == 'y');
    assert("sun"@.len() == 3 && "sun"@[0] == 's' && "sun"@[1] == 'u' && "sun"@[2] == 'n');
}

/// A weekday name, in full or abbreviated and in any case, names its own
/// day: "saturday" and "sat" name Saturday (5), and so on for each day; any
/// other text names none.
pub proof fn lemma_weekday_names(s: Seq<char>)
    ensures
        forall|i: int|
            0 <= i < weekday_spellings().len() && ascii_lower(trim(s)) == (#[trigger] weekday_spellings()[i]).0
                ==> weekday_named(s) == Some(weekday_spellings()[i].1),
        (forall|i: int| 0 <= i < weekday_spellings().len() ==> ascii_lower(trim(s)) != (
        #[trigger] weekday_spellings()[i]).0) ==> weekday_named(s) is None,
        weekday_named(s) matches Some(d) ==> d < 7,
{
    lemma_weekday_spellings_differ();
    assert(weekday_spellings()[0] == ("monday"@, 0nat));
    assert(weekday_spellings()[1] == ("mon"@, 0nat));
    assert(weekday_spellings()[2] == ("tuesday"@, 1nat));
    assert(weekday_spellings()[3] == ("tue"@, 1nat));
    assert(weekday_spellings()[4] == ("tues"@, 1nat));
    assert(weekday_spellings()[5] == ("wednesday"@, 2nat));
    assert(weekday_spellings()[6] == ("wed"@, 2nat));
    assert(weekday_spellings()[7] == ("thursday"@, 3nat));
    assert(weekday_spellings()[8] == ("thu"@, 3nat));
    assert(weekday_spellings()[9] == ("thurs"@, 3nat));
    assert(weekday_spellings()[10] == ("friday"@, 4nat));
    assert(weekday_spellings()[11] == ("fri"@, 4nat));
    assert(weekday_spellings()[12] == ("saturday"@, 5nat));
    assert(weekday_spellings()[13] == ("sat"@, 5nat));
    assert(weekday_spellings()[14] == ("sunday"@, 6nat));
    assert(weekday_spellings()[15] == ("sun"@, 6nat));
}


/// Each weekday spelling is plain lowercase letters: trimming and
/// lowercasing keep it, it does not begin with "next", and it has at most
/// nine letters.
proof fn lemma_spelling_plain(i: int)
    requires
        0 <= i < weekday_spellings().len(),
    ensures
        ({
            let sp = weekday_spellings()[i].0;
            &&& trim(sp) == sp
            &&& ascii_lower(sp) == sp
            &&& !starts_with(sp, "next"@)
            &&& 0 < sp.len() <= 9
            &&& forall|j: int| 0 <= j < sp.len() ==> 'a' <= #[trigger] sp[j] <= 'z'
        }),
{
    reveal_strlit("monday");
    reveal_strlit("mon");
    reveal_strlit("tuesday");
    reveal_strlit("tue");
    reveal_strlit("tues");
    reveal_strlit("wednesday");
    reveal_strlit("wed");
    reveal_strlit("thursday");
    reveal_strlit("thu");
    reveal_strlit("thurs");
    reveal_strlit("friday");
    reveal_strlit("fri");
    reveal_strlit("saturday");
    reveal_strlit("sat");
    reveal_strlit("sunday");
    reveal_strlit("sun");
    reveal_strlit("next");
    assert("monday"@.len() == 6 && "monday"@[0] == 'm' && "monday"@[1] == 'o' && "monday"@[2] == 'n' && "monday"@[3] == 'd' && "monday"@[4] == 'a' && "monday"@[5] == 'y');
    assert("mon"@.len() == 3 && "mon"@[0] == 'm' && "mon"@[1] == 'o' && "mon"@[2] == 'n');
    assert("tuesday"@.len() == 7 && "tuesday"@[0] == 't' && "tuesday"@[1] == 'u' && "tuesday"@[2] == 'e' && "tuesday"@[3] == 's' && "tuesday"@[4] == 'd' && "tuesday"@[5] == 'a' && "tuesday"@[6] == 'y');
    assert("tue"@.len() == 3 && "tue"@[0] == 't' && "tue"@[1] == 'u' && "tue"@[2] == 'e');
    assert("tues"@.len() == 4 && "tues"@[0] == 't' && "tues"@[1] == 'u' && "tues"@[2] == 'e' && "tues"@[3] == 's');
    assert("wednesday"@.len() == 9 && "wednesday"@[0] == 'w' && "wednesday"@[1] == 'e' && "wednesday"@[2] == 'd' && "wednesday"@[3] == 'n' && "wednesday"@[4] == 'e' && "wednesday"@[5] == 's' && "wednesday"@[6] == 'd' && "wednesday"@[7] == 'a' && "wednesday"@[8] == 'y');
    assert("wed"@.len() == 3 && "wed"@[0] == 'w' && "wed"@[1] == 'e' && "wed"@[2] == 'd');
    assert("thursday"@.len() == 8 && "thursday"@[0] == 't' && "thursday"@[1] == 'h' && "thursday"@[2] == 'u' && "thursday"@[3] == 'r' && "thursday"@[4] == 's' && "thursday"@[5] == 'd' && "thursday"@[6] == 'a' && "thursday"@[7] == 'y');
    assert("thu"@.len() == 3 && "thu"@[0] == 't' && "thu"@[1] == 'h' && "thu"@[2] == 'u');
    assert("thurs"@.len() == 5 && "thurs"@[0] == 't' && "thurs"@[1] == 'h' && "thurs"@[2] == 'u' && "thurs"@[3] == 'r' && "thurs"@[4] == 's');
    assert("friday"@.len() == 6 && "friday"@[0] == 'f' && "friday"@[1] == 'r' && "friday"@[2] == 'i' && "friday"@[3] == 'd' && "friday"@[4] == 'a' && "friday"@[5] == 'y');
    assert("fri"@.len() == 3 && "fri"@[0] == 'f' && "fri"@[1] == 'r' && "fri"@[2] == 'i');
    assert("saturday"@.len() == 8 && "saturday"@[0] == 's' && "saturday"@[1] == 'a' && "saturday"@[2] == 't' && "saturday"@[3] == 'u' && "saturday"@[4] == 'r' && "saturday"@[5] == 'd' && "saturday"@[6] == 'a' && "saturday"@[7] == 'y');
    assert("sat"@.len() == 3 && "sat"@[0] == 's' && "sat"@[1] == 'a' && "sat"@[2] == 't');
    assert("sunday"@.len() == 6 && "sunday"@[0] == 's' && "sunday"@[1] == 'u' && "sunday"@[2] == 'n' && "sunday"@[3] == 'd' && "sunday"@[4] == 'a' && "sunday"@[5] == 'y');
    assert("sun"@.len() == 3 && "sun"@[0] == 's' && "sun"@[1] == 'u' && "sun"@[2] == 'n');
    assert(weekday_spellings()[0] == ("monday"@, 0nat));
    assert(weekday_spellings()[1] == ("mon"@, 0nat));
    assert(weekday_spellings()[2] == ("tuesday"@, 1nat));
    assert(weekday_spellings()[3] == ("tue"@, 1nat));
    assert(weekday_spellings()[4] == ("tues"@, 1nat));
    assert(weekday_spellings()[5] == ("wednesday"@, 2nat));
    assert(weekday_spellings()[6] == ("wed"@, 2nat));
    assert(weekday_spellings()[7] == ("thursday"@, 3nat));
    assert(weekday_spellings()[8] == ("thu"@, 3nat));
    assert(weekday_spellings()[9] == ("thurs"@, 3nat));
    assert(weekday_spellings()[10] == ("friday"@, 4nat));
    assert(weekday_spellings()[11] == ("fri"@, 4nat));
    assert(weekday_spellings()[12] == ("saturday"@, 5nat));
    assert(weekday_spellings()[13] == ("sat"@, 5nat));
    assert(weekday_spellings()[14] == ("sunday"@, 6nat));
    assert(weekday_spellings()[15] == ("sun"@, 6nat));
    let sp = weekday_spellings()[i].0;
    assert(forall|j: int| 0 <= j < sp.len() ==> 'a' <= #[trigger] sp[j] <= 'z');
    assert(!is_ws(sp[0]));
    assert(trim_start(sp) == sp);
    assert(!is_ws(sp.last()));
    assert(trim_end(sp) == sp);
    assert(ascii_lower(sp) =~= sp);
    assert(sp[0] != 'n');
    if starts_with(sp, "next"@) {
        assert(sp.take(4)[0] == "next"@[0]);
    }
    assert(0 < sp.len() <= 9);
}

/// A phrase naming a weekday, alone or after "by" or "next" (any case),
/// is due on the first later day with that weekday.
pub proof fn lemma_weekday_phrase(t: Seq<char>, today: (int, int, int), i: int)
    requires
        0 <= i < weekday_spellings().len(),
        ({
            let lower = trim(strip_prefixes(ascii_lower(t), "by"@));
            ||| lower == weekday_spellings()[i].0
            ||| (trim(strip_prefixes(lower, "next"@)) == weekday_spellings()[i].0 && !contains(
                lower,
                "end of week"@,
            ) && !contains(lower, "end of month"@))
        }),
    ensures
        relative_deadline(t, today) == Some(next_weekday_date(today, weekday_spellings()[i].1)),
{
    let sp = weekday_spellings()[i].0;
    let lower = trim(strip_prefixes(ascii_lower(t), "by"@));
    lemma_spelling_plain(i);
    lemma_weekday_names(sp);
    reveal_strlit("end of week");
    reveal_strlit("end of month");
    reveal_strlit("next");
    assert("end of week"@.len() == 11 && "end of month"@.len() == 12 && "next"@.len() == 4);
    if lower == sp {
        assert(!contains(lower, "end of week"@));
        assert(!contains(lower, "end of month"@));
        assert(strip_prefixes(lower, "next"@) == lower);
    }
}

} // verus!
