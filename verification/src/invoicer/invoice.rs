//! Invoice numbering and the contract period record.
use vstd::prelude::*;
use crate::calendar::{
    chrono_days_between, last_day_of, chrono_parse_result, chrono_ymd_valid, date_before, date_from_ymd,
    days_between, is_before, is_date, last_day_of_month, max_year, parse_date_result, ymd, Date,
};
use crate::text::{
    chars_of, dec, dec_int, i64_to_dec, pad_left, pad_left_vec, parse_integer, parse_integer_vec, split_once,
    split_once_vec, string_of, u64_to_dec,
};

verus! {

/// The period of performance of a contract, as ISO dates.
#[derive(Debug, Clone)]
pub struct ContractPeriod {
    pub start: String,
    pub end: String,
}

/// `s` without its dashes.
pub open spec fn without_dashes(s: Seq<char>) -> Seq<char>
    decreases s.len(),
{
    if s.len() == 0 {
        Seq::empty()
    } else {
        without_dashes(s.drop_last()) + if s.last() == '-' {
            Seq::<char>::empty()
        } else {
            seq![s.last()]
        }
    }
}

/// Invoice number `HOAGS-INV-<period without dashes>-<sequence, at least 3 digits>`.
pub open spec fn invoice_number(period: Seq<char>, sequence: nat) -> Seq<char> {
    "HOAGS-INV-"@ + without_dashes(period) + "-"@ + pad_left(dec(sequence), 3, '0')
}

/// Builds an invoice number such as `HOAGS-INV-202604-001` from the billing
/// period (`2026-04`) and the sequence number.
pub fn build_invoice_number(period: &str, sequence: u32) -> (r: String)
    ensures
        r@ == invoice_number(period@, sequence as nat),
{
    let v = chars_of(period);
    let mut compact: Vec<char> = Vec::new();
    let mut i: usize = 0;
    while i < v.len()
        invariant
            i <= v.len(),
            compact@ == without_dashes(v@.take(i as int)),
        decreases v.len() - i,
    {
        let ghost t = v@.take(i + 1);
        assert(t.drop_last() =~= v@.take(i as int));
        if v[i] != '-' {
            compact.push(v[i]);
        }
        assert(compact@ =~= without_dashes(t));
        i = i + 1;
    }
    assert(v@.take(v.len() as int) =~= v@);
    let seq_text = pad_left_vec(&u64_to_dec(sequence as u64), 3, '0');
    let mut s = "HOAGS-INV-".to_owned();
    s.append(string_of(&compact).as_str());
    s.append("-");
    s.append(string_of(&seq_text).as_str());
    s
}


/// The year and month a billing period `YYYY-MM` names, where both parse.
pub open spec fn period_year_month(period: Seq<char>) -> Option<(int, int)> {
    match split_once(period, '-') {
        Some((ys, ms)) => match (
            parse_integer(ys, i32::MIN as int, i32::MAX as int),
            parse_integer(ms, 0, u32::MAX as int),
        ) {
            (Ok(y), Ok(m)) => Some((y, m)),
            _ => None,
        },
        None => None,
    }
}

/// Periods whose month has no last day that `chrono` can represent: the
/// December of its last year.
pub open spec fn period_at_calendar_end(period: Seq<char>) -> bool {
    period_year_month(period) == Some((max_year(), 12int))
}

/// The part of the billing month within the contract period: `None` where
/// they do not overlap, else the days billed and the days of the whole
/// contract; or the error met reading the period or the contract dates.
pub open spec fn billing_window(start: Seq<char>, end: Seq<char>, period: Seq<char>) -> Result<
    Option<(int, int)>,
    Seq<char>,
> {
    match split_once(period, '-') {
        None => Err("Invalid period '"@ + period + "' \u{2014} expected YYYY-MM"@),
        Some((ys, ms)) => match parse_integer(ys, i32::MIN as int, i32::MAX as int) {
            Err(_) => Err("Invalid year"@),
            Ok(y) => match parse_integer(ms, 0, u32::MAX as int) {
                Err(_) => Err("Invalid month"@),
                Ok(m) => if !chrono_ymd_valid(y, m, 1) {
                    Err("Invalid date: "@ + dec_int(y) + "-"@ + dec_int(m) + "-01"@)
                } else {
                    match chrono_parse_result(start, "%Y-%m-%d"@) {
                        Err(e) => Err("Bad contract start: "@ + e),
                        Ok(cs) => match chrono_parse_result(end, "%Y-%m-%d"@) {
                            Err(e) => Err("Bad contract end: "@ + e),
                            Ok(ce) => {
                                let first = (y, m, 1);
                                let last = last_day_of(y, m);
                                let from = if date_before(first, cs) {
                                    cs
                                } else {
                                    first
                                };
                                let to = if date_before(ce, last) {
                                    ce
                                } else {
                                    last
                                };
                                if date_before(to, from) {
                                    Ok(None)
                                } else {
                                    Ok(
                                        Some(
                                            (
                                                chrono_days_between(to, from) + 1,
                                                chrono_days_between(ce, cs) + 1,
                                            ),
                                        ),
                                    )
                                }
                            },
                        },
                    }
                },
            },
        },
    }
}

/// Reads the billing period `YYYY-MM` and the contract period, and returns
/// how many days of the billing month fall within the contract (with the
/// contract's own length in days), `None` where none does.
pub fn billing_days(period: &ContractPeriod, billing_period: &str) -> (r: Result<Option<(i64, i64)>, String>)
    requires
        !period_at_calendar_end(billing_period@),
    ensures
        match r {
            Ok(Some((b, t))) => billing_window(period.start@, period.end@, billing_period@) == Ok::<
                Option<(int, int)>,
                Seq<char>,
            >(Some((b as int, t as int))),
            Ok(None) => billing_window(period.start@, period.end@, billing_period@) == Ok::<
                Option<(int, int)>,
                Seq<char>,
            >(None),
            Err(e) => billing_window(period.start@, period.end@, billing_period@) == Err::<
                Option<(int, int)>,
                Seq<char>,
            >(e@),
        },
{
    let v = chars_of(billing_period);
    let (ys, ms) = match split_once_vec(&v, '-') {
        Some(p) => p,
        None => {
            let mut e = "Invalid period '".to_owned();
            e.append(billing_period);
            e.append("' \u{2014} expected YYYY-MM");
            return Err(e);
        },
    };
    let year = match parse_integer_vec(&ys, i32::MIN as i64, i32::MAX as i64) {
        Ok(y) => y as i32,
        Err(_) => return Err("Invalid year".to_owned()),
    };
    let month = match parse_integer_vec(&ms, 0, u32::MAX as i64) {
        Ok(m) => m as u32,
        Err(_) => return Err("Invalid month".to_owned()),
    };
    let first = match date_from_ymd(year, month, 1) {
        Some(d) => d,
        None => {
            let mut e = "Invalid date: ".to_owned();
            e.append(string_of(&i64_to_dec(year as i64)).as_str());
            e.append("-");
            e.append(string_of(&i64_to_dec(month as i64)).as_str());
            e.append("-01");
            return Err(e);
        },
    };
    assert(period_year_month(billing_period@) == Some((year as int, month as int)));
    let last = last_day_of_month(year, month);
    let cs = match parse_date_result(period.start.as_str(), "%Y-%m-%d") {
        Ok(d) => d,
        Err(e) => {
            let mut m = "Bad contract start: ".to_owned();
            m.append(e.as_str());
            return Err(m);
        },
    };
    let ce = match parse_date_result(period.end.as_str(), "%Y-%m-%d") {
        Ok(d) => d,
        Err(e) => {
            let mut m = "Bad contract end: ".to_owned();
            m.append(e.as_str());
            return Err(m);
        },
    };
    let from = if is_before(first, cs) {
        cs
    } else {
        first
    };
    let to = if is_before(ce, last) {
        ce
    } else {
        last
    };
    if is_before(to, from) {
        return Ok(None);
    }
    let billed = days_between(to, from) + 1;
    let total = days_between(ce, cs) + 1;
    Ok(Some((billed, total)))
}


/// Whether `from..=to` is the overlap of the month `first..=last` with the
/// contract `cs..=ce`: it starts at the later of the two starts and ends at
/// the earlier of the two ends.
pub open spec fn overlap_bounds(
    from: (int, int, int),
    to: (int, int, int),
    first: (int, int, int),
    last: (int, int, int),
    cs: (int, int, int),
    ce: (int, int, int),
) -> bool {
    &&& (from == first || from == cs)
    &&& !date_before(from, first)
    &&& !date_before(from, cs)
    &&& (to == last || to == ce)
    &&& !date_before(last, to)
    &&& !date_before(ce, to)
}

/// The days billed for a month are those of its overlap with the contract
/// period: counted from the later of the month's first day and the contract
/// start to the earlier of the month's last day and the contract end, so no
/// day after the contract ends (or before it starts) is billed; nothing is
/// billed where the two do not overlap; and the contract's length counts
/// its first and last days.
pub proof fn lemma_billing_overlap(start: Seq<char>, end: Seq<char>, period: Seq<char>)
    ensures
        billing_window(start, end, period) is Ok ==> period_year_month(period) is Some && chrono_parse_result(
            start,
            "%Y-%m-%d"@,
        ) is Ok && chrono_parse_result(end, "%Y-%m-%d"@) is Ok,
        billing_window(start, end, period) matches Ok(Some((b, t))) ==> {
            let (y, m) = period_year_month(period)->Some_0;
            let cs = chrono_parse_result(start, "%Y-%m-%d"@)->Ok_0;
            let ce = chrono_parse_result(end, "%Y-%m-%d"@)->Ok_0;
            &&& exists|from: (int, int, int), to: (int, int, int)|
                overlap_bounds(from, to, (y, m, 1), last_day_of(y, m), cs, ce) && !date_before(to, from) && b
                    == chrono_days_between(to, from) + 1
            &&& t == chrono_days_between(ce, cs) + 1
        },
        billing_window(start, end, period) matches Ok(None) ==> {
            let (y, m) = period_year_month(period)->Some_0;
            let cs = chrono_parse_result(start, "%Y-%m-%d"@)->Ok_0;
            let ce = chrono_parse_result(end, "%Y-%m-%d"@)->Ok_0;
            exists|from: (int, int, int), to: (int, int, int)|
                overlap_bounds(from, to, (y, m, 1), last_day_of(y, m), cs, ce) && date_before(to, from)
        },
{
    if billing_window(start, end, period) is Ok {
        let (ys, ms) = split_once(period, '-')->Some_0;
        let y = parse_integer(ys, i32::MIN as int, i32::MAX as int)->Ok_0;
        let m = parse_integer(ms, 0, u32::MAX as int)->Ok_0;
        let cs = chrono_parse_result(start, "%Y-%m-%d"@)->Ok_0;
        let ce = chrono_parse_result(end, "%Y-%m-%d"@)->Ok_0;
        let first = (y, m, 1);
        let last = last_day_of(y, m);
        let from = if date_before(first, cs) { cs } else { first };
        let to = if date_before(ce, last) { ce } else { last };
        assert(overlap_bounds(from, to, first, last, cs, ce));
    }
}

} // verus!
