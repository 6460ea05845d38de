//! Calendar dates, with the calendar work done by `chrono`.
use vstd::prelude::*;
use chrono::Datelike;

verus! {

/// A calendar date.
#[derive(Debug, Clone, Copy, PartialEq, Eq, Structural)]
pub struct Date {
    pub year: i32,
    pub month: u32,
    pub day: u32,
}

pub open spec fn ymd(d: Date) -> (int, int, int) {
    (d.year as int, d.month as int, d.day as int)
}

pub open spec fn opt_ymd(d: Option<Date>) -> Option<(int, int, int)> {
    match d {
        Some(x) => Some(ymd(x)),
        None => None,
    }
}

/// The first and last years `chrono` can represent.
pub open spec fn min_year() -> int {
    -262143
}

pub open spec fn max_year() -> int {
    262142
}

/// What `NaiveDate::parse_from_str(s, fmt)` yields: the date as year, month
/// and day, or the text of the parse error.
pub uninterp spec fn chrono_parse_result(s: Seq<char>, fmt: Seq<char>) -> Result<(int, int, int), Seq<char>>;

/// The date `NaiveDate::parse_from_str(s, fmt)` reads, if any.
pub open spec fn chrono_parse(s: Seq<char>, fmt: Seq<char>) -> Option<(int, int, int)> {
    match chrono_parse_result(s, fmt) {
        Ok(d) => Some(d),
        Err(_) => None,
    }
}

/// The number of days from the second date to the first (`(a - b).num_days()`).
pub uninterp spec fn chrono_days_between(a: (int, int, int), b: (int, int, int)) -> int;

/// Whether `NaiveDate::from_ymd_opt` accepts the year, month and day.
pub uninterp spec fn chrono_ymd_valid(year: int, month: int, day: int) -> bool;

/// `Datelike::weekday().num_days_from_monday()` of a date (Monday is 0).
pub uninterp spec fn chrono_weekday(year: int, month: int, day: int) -> int;

/// The date `days` days after the given one.
pub uninterp spec fn chrono_add_days(year: int, month: int, day: int, days: int) -> (int, int, int);

/// The day before the given date (`NaiveDate::pred_opt`).
pub uninterp spec fn chrono_pred(year: int, month: int, day: int) -> (int, int, int);

/// The month after the given one, as year and month.
pub open spec fn next_month(year: int, month: int) -> (int, int) {
    if month == 12 {
        (year + 1, 1)
    } else {
        (year, month + 1)
    }
}

/// The last day of the given month: the day before the first of the next.
pub open spec fn last_day_of(year: int, month: int) -> (int, int, int) {
    let (ny, nm) = next_month(year, month);
    chrono_pred(ny, nm, 1)
}

/// A date that `chrono` represents.
pub open spec fn is_date(d: (int, int, int)) -> bool {
    chrono_ymd_valid(d.0, d.1, d.2) && min_year() <= d.0 <= max_year() && 1 <= d.1 <= 12 && 1 <= d.2
        <= 31
}

/// The date `NaiveDate::parse_from_str` reads, if any.
pub(crate) fn parse_date(s: &str, fmt: &str) -> (r: Option<Date>)
    ensures
        opt_ymd(r) == chrono_parse(s@, fmt@),
        r matches Some(d) ==> is_date(ymd(d)),
{
    match parse_date_result(s, fmt) {
        Ok(d) => Some(d),
        Err(_) => None,
    }
}

/// `NaiveDate::from_ymd_opt`; the first 28 days of every month of the years
/// `chrono` represents are dates.
#[verifier::external_body]
pub(crate) fn date_from_ymd(year: i32, month: u32, day: u32) -> (r: Option<Date>)
    ensures
        r is Some <==> chrono_ymd_valid(year as int, month as int, day as int),
        r matches Some(d) ==> d == (Date { year, month, day }) && is_date(ymd(d)),
        min_year() <= year <= max_year() && 1 <= month <= 12 && 1 <= day <= 28 ==> r is Some,
{
    match chrono::NaiveDate::from_ymd_opt(year, month, day) {
        Some(d) => Some(Date { year: d.year(), month: d.month(), day: d.day() }),
        None => None,
    }
}

/// `Datelike::weekday` of a date, counted from Monday.
#[verifier::external_body]
pub(crate) fn weekday_of(d: Date) -> (r: u32)
    requires
        is_date(ymd(d)),
    ensures
        r == chrono_weekday(d.year as int, d.month as int, d.day as int),
        r < 7,
{
    chrono::NaiveDate::from_ymd_opt(d.year, d.month, d.day).unwrap().weekday().num_days_from_monday()
}

/// `NaiveDate::checked_add_days`; a date before `chrono`'s last year moved
/// by at most a month stays representable. The result lies `days` days
/// after `d`, so its weekday is `days` weekdays on from that of `d`.
#[verifier::external_body]
pub(crate) fn add_days(d: Date, days: u32) -> (r: Date)
    requires
        is_date(ymd(d)),
        d.year < max_year(),
        days <= 31,
    ensures
        ymd(r) == chrono_add_days(d.year as int, d.month as int, d.day as int, days as int),
        is_date(ymd(r)),
        chrono_days_between(ymd(r), ymd(d)) == days,
        chrono_weekday(r.year as int, r.month as int, r.day as int) == (chrono_weekday(
            d.year as int,
            d.month as int,
            d.day as int,
        ) + days) % 7,
{
    let nd = chrono::NaiveDate::from_ymd_opt(d.year, d.month, d.day).unwrap();
    let r = nd.checked_add_days(chrono::Days::new(days as u64)).unwrap();
    Date { year: r.year(), month: r.month(), day: r.day() }
}

/// `NaiveDate::pred_opt`, which fails only on `chrono`'s first date: the day
/// before is the previous day of the month, or after a first of the month
/// the last day (28th to 31st) of the month before.
#[verifier::external_body]
pub(crate) fn day_before(d: Date) -> (r: Date)
    requires
        is_date(ymd(d)),
        !(d.year == min_year() && d.month == 1 && d.day == 1),
    ensures
        ymd(r) == chrono_pred(d.year as int, d.month as int, d.day as int),
        is_date(ymd(r)),
        d.day > 1 ==> r.year == d.year && r.month == d.month && r.day == d.day - 1,
        d.day == 1 ==> 28 <= r.day <= 31 && (if d.month == 1 {
            r.year == d.year - 1 && r.month == 12
        } else {
            r.year == d.year && r.month == d.month - 1
        }),
{
    let nd = chrono::NaiveDate::from_ymd_opt(d.year, d.month, d.day).unwrap();
    let r = nd.pred_opt().unwrap();
    Date { year: r.year(), month: r.month(), day: r.day() }
}

/// The last day of the given month: the day before the first of the next.
pub(crate) fn last_day_of_month(year: i32, month: u32) -> (r: Date)
    requires
        min_year() <= year <= max_year(),
        1 <= month <= 12,
        year < max_year() || month < 12,
    ensures
        ymd(r) == last_day_of(year as int, month as int),
        is_date(ymd(r)),
        r.year == year && r.month == month && 28 <= r.day <= 31,
{
    let (ny, nm): (i32, u32) = if month == 12 {
        (year + 1, 1)
    } else {
        (year, month + 1)
    };
    match date_from_ymd(ny, nm, 1) {
        Some(first) => day_before(first),
        None => {
            assert(false);
            Date { year, month, day: 28 }
        },
    }
}

/// The local calendar date now; nothing is promised of which date it is.
#[verifier::external_body]
pub(crate) fn local_today() -> (r: Date)
    ensures
        is_date(ymd(r)),
{
    let r = chrono::Local::now().date_naive();
    Date { year: r.year(), month: r.month(), day: r.day() }
}


/// `NaiveDate::parse_from_str`, keeping the error's text.
#[verifier::external_body]
pub(crate) fn parse_date_result(s: &str, fmt: &str) -> (r: Result<Date, String>)
    ensures
        match r {
            Ok(d) => chrono_parse_result(s@, fmt@) == Ok::<(int, int, int), Seq<char>>(ymd(d)) && is_date(ymd(d)),
            Err(e) => chrono_parse_result(s@, fmt@) == Err::<(int, int, int), Seq<char>>(e@),
        },
{
    match chrono::NaiveDate::parse_from_str(s, fmt) {
        Ok(d) => Ok(Date { year: d.year(), month: d.month(), day: d.day() }),
        Err(e) => Err(e.to_string()),
    }
}

/// `(a - b).num_days()`.
#[verifier::external_body]
pub(crate) fn days_between(a: Date, b: Date) -> (r: i64)
    requires
        is_date(ymd(a)),
        is_date(ymd(b)),
    ensures
        r == chrono_days_between(ymd(a), ymd(b)),
        -(max_year() - min_year() + 1) * 366 <= r <= (max_year() - min_year() + 1) * 366,
{
    let x = chrono::NaiveDate::from_ymd_opt(a.year, a.month, a.day).unwrap();
    let y = chrono::NaiveDate::from_ymd_opt(b.year, b.month, b.day).unwrap();
    (x - y).num_days()
}

/// Lexicographic (and so chronological) order of dates.
pub open spec fn date_before(a: (int, int, int), b: (int, int, int)) -> bool {
    a.0 < b.0 || (a.0 == b.0 && (a.1 < b.1 || (a.1 == b.1 && a.2 < b.2)))
}

pub fn is_before(a: Date, b: Date) -> (r: bool)
    ensures
        r == date_before(ymd(a), ymd(b)),
{
    a.year < b.year || (a.year == b.year && (a.month < b.month || (a.month == b.month && a.day < b.day)))
}

} // verus!
