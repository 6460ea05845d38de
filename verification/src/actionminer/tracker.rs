//! What the action-item tracker computes from stored items: the CSV export,
//! the overdue items and the order of work by deadline.
use vstd::prelude::*;
use crate::actionminer::deadline::{deadline_on, parse_deadline_on};
use crate::actionminer::models::ActionItem;
use crate::calendar::{date_before, is_before, is_date, max_year, opt_ymd, ymd, Date};
use crate::docconv::convert::{csv_escape, escape_field};
use crate::text::{dec_int, i64_to_dec, string_of};

verus! {

/// The header line of the CSV export.
pub open spec fn csv_header() -> Seq<char> {
    "id,description,assignee,deadline,source_file,status,created_at\n"@
}

pub open spec fn text_or_empty(o: Option<String>) -> Seq<char> {
    match o {
        Some(s) => s@,
        None => Seq::empty(),
    }
}

/// One exported line: the id and status as they are, the other fields
/// CSV-escaped, absent ones empty.
pub open spec fn csv_row(a: ActionItem) -> Seq<char> {
    dec_int(a.id as int) + ","@ + escape_field(a.description@) + ","@ + escape_field(
        text_or_empty(a.assignee),
    ) + ","@ + escape_field(text_or_empty(a.deadline)) + ","@ + escape_field(a.source_file@) + ","@
        + a.status@ + ","@ + escape_field(a.created_at@) + "\n"@
}

pub open spec fn csv_rows(items: Seq<ActionItem>) -> Seq<char>
    decreases items.len(),
{
    if items.len() == 0 {
        Seq::empty()
    } else {
        csv_rows(items.drop_last()) + csv_row(items.last())
    }
}

fn push_escaped(s: &mut String, field: &str)
    ensures
        final(s)@ == old(s)@ + ","@ + escape_field(field@),
{
    s.append(",");
    s.append(csv_escape(field).as_str());
}

fn opt_str(o: &Option<String>) -> (r: &str)
    ensures
        r@ == text_or_empty(*o),
{
    match o {
        Some(s) => s.as_str(),
        None => {
            proof {
                reveal_strlit("");
            }
            ""
        },
    }
}

/// The items as CSV: a header line, then one line per item.
pub fn export_csv_text(items: &Vec<ActionItem>) -> (r: String)
    ensures
        r@ == csv_header() + csv_rows(items@),
{
    let mut out = "id,description,assignee,deadline,source_file,status,created_at\n".to_owned();
    let mut i: usize = 0;
    while i < items.len()
        invariant
            i <= items.len(),
            out@ == csv_header() + csv_rows(items@.take(i as int)),
        decreases items.len() - i,
    {
        let it = &items[i];
        let mut line = string_of(&i64_to_dec(it.id));
        push_escaped(&mut line, it.description.as_str());
        push_escaped(&mut line, opt_str(&it.assignee));
        push_escaped(&mut line, opt_str(&it.deadline));
        push_escaped(&mut line, it.source_file.as_str());
        line.append(",");
        line.append(it.status.as_str());
        push_escaped(&mut line, it.created_at.as_str());
        line.append("\n");
        assert(line@ =~= csv_row(items@[i as int]));
        out.append(line.as_str());
        assert(items@.take(i + 1).drop_last() =~= items@.take(i as int));
        assert(out@ =~= csv_header() + csv_rows(items@.take(i + 1)));
        i = i + 1;
    }
    assert(items@.take(items.len() as int) =~= items@);
    out
}

/// The date an item's deadline phrase reads as on `today`.
pub open spec fn due_date(a: ActionItem, today: (int, int, int)) -> Option<(int, int, int)> {
    match a.deadline {
        Some(dl) => deadline_on(dl@, today),
        None => None,
    }
}

fn due_date_exec(a: &ActionItem, today: Date) -> (r: Option<Date>)
    requires
        is_date(ymd(today)),
        today.year < max_year(),
    ensures
        opt_ymd(r) == due_date(*a, ymd(today)),
{
    match &a.deadline {
        Some(dl) => parse_deadline_on(dl.as_str(), today),
        None => None,
    }
}

/// Whether an item's deadline reads as a day before `today`.
pub open spec fn is_overdue(a: ActionItem, today: (int, int, int)) -> bool {
    match due_date(a, today) {
        Some(d) => date_before(d, today),
        None => false,
    }
}

/// Positions, in order, of the items that are overdue on `today`.
pub open spec fn overdue_positions(items: Seq<ActionItem>, today: (int, int, int)) -> Seq<int>
    decreases items.len(),
{
    if items.len() == 0 {
        Seq::empty()
    } else {
        overdue_positions(items.drop_last(), today) + if is_overdue(items.last(), today) {
            seq![items.len() - 1]
        } else {
            Seq::empty()
        }
    }
}

pub open spec fn as_ints(v: Seq<usize>) -> Seq<int> {
    v.map_values(|i: usize| i as int)
}

/// Positions of the items whose deadline has passed on `today`; items
/// without a readable deadline are never overdue.
pub fn overdue_items(items: &Vec<ActionItem>, today: Date) -> (r: Vec<usize>)
    requires
        is_date(ymd(today)),
        today.year < max_year(),
    ensures
        as_ints(r@) == overdue_positions(items@, ymd(today)),
{
    let mut out: Vec<usize> = Vec::new();
    let mut i: usize = 0;
    while i < items.len()
        invariant
            i <= items.len(),
            is_date(ymd(today)),
            today.year < max_year(),
            as_ints(out@) == overdue_positions(items@.take(i as int), ymd(today)),
        decreases items.len() - i,
    {
        let ghost t = items@.take(i + 1);
        assert(t.drop_last() =~= items@.take(i as int));
        assert(t.last() == items@[i as int]);
        let late = match due_date_exec(&items[i], today) {
            Some(d) => is_before(d, today),
            None => false,
        };
        let ghost before = out@;
        if late {
            out.push(i);
            assert(as_ints(out@) =~= as_ints(before).push(i as int));
        }
        i = i + 1;
    }
    assert(items@.take(items.len() as int) =~= items@);
    out
}

/// Where a dated entry goes in a list kept in date order: before the first
/// entry with a later date, so that equal dates keep their arrival order.
pub open spec fn first_later(s: Seq<(int, (int, int, int))>, d: (int, int, int)) -> int
    decreases s.len(),
{
    if s.len() == 0 {
        0
    } else if date_before(d, s[0].1) {
        0
    } else {
        1 + first_later(s.drop_first(), d)
    }
}

/// The positions of the items with a readable deadline, with their dates, in
/// date order; equal dates keep the items' order.
pub open spec fn dated_in_order(items: Seq<ActionItem>, today: (int, int, int)) -> Seq<(int, (int, int, int))>
    decreases items.len(),
{
    if items.len() == 0 {
        Seq::empty()
    } else {
        let s = dated_in_order(items.drop_last(), today);
        match due_date(items.last(), today) {
            Some(d) => s.insert(first_later(s, d), (items.len() - 1, d)),
            None => s,
        }
    }
}

/// Dated entries whose dates never decrease.
pub open spec fn dates_sorted(s: Seq<(int, (int, int, int))>) -> bool {
    forall|i: int, j: int| 0 <= i < j < s.len() ==> !date_before(#[trigger] s[j].1, #[trigger] s[i].1)
}

proof fn lemma_first_later(s: Seq<(int, (int, int, int))>, d: (int, int, int))
    requires
        dates_sorted(s),
    ensures
        0 <= first_later(s, d) <= s.len(),
        forall|i: int| 0 <= i < first_later(s, d) ==> !date_before(d, #[trigger] s[i].1),
        forall|i: int| first_later(s, d) <= i < s.len() ==> date_before(d, #[trigger] s[i].1),
    decreases s.len(),
{
    if s.len() > 0 && !date_before(d, s[0].1) {
        let t = s.drop_first();
        assert forall|i: int, j: int| 0 <= i < j < t.len() implies !date_before(#[trigger] t[j].1, #[trigger] t[i].1) by {
            assert(t[i] == s[i + 1] && t[j] == s[j + 1]);
        }
        lemma_first_later(t, d);
        assert forall|i: int| 0 <= i < first_later(s, d) implies !date_before(d, #[trigger] s[i].1) by {
            if i > 0 {
                assert(s[i] == t[i - 1]);
            }
        }
        assert forall|i: int| first_later(s, d) <= i < s.len() implies date_before(d, #[trigger] s[i].1) by {
            assert(s[i] == t[i - 1]);
        }
    } else if s.len() > 0 {
        assert forall|i: int| 0 <= i < s.len() implies date_before(d, #[trigger] s[i].1) by {
            if i > 0 {
                assert(!date_before(s[i].1, s[0].1));
            }
        }
    }
}

proof fn lemma_insert_sorted(s: Seq<(int, (int, int, int))>, p: int, d: (int, int, int))
    requires
        dates_sorted(s),
    ensures
        dates_sorted(s.insert(first_later(s, d), (p, d))),
{
    lemma_first_later(s, d);
    let k = first_later(s, d);
    let u = s.insert(k, (p, d));
    assert forall|i: int, j: int| 0 <= i < j < u.len() implies !date_before(#[trigger] u[j].1, #[trigger] u[i].1) by {
        if j < k {
            assert(u[i] == s[i] && u[j] == s[j]);
        } else if j == k {
            assert(u[i] == s[i]);
        } else if i < k {
            assert(u[i] == s[i] && u[j] == s[j - 1]);
        } else if i == k {
            assert(u[j] == s[j - 1]);
        } else {
            assert(u[i] == s[i - 1] && u[j] == s[j - 1]);
        }
    }
}

/// The items with a readable deadline come in the order of work with their
/// dates never decreasing: earliest deadline first.
pub proof fn lemma_dated_in_order_sorted(items: Seq<ActionItem>, today: (int, int, int))
    ensures
        dates_sorted(dated_in_order(items, today)),
    decreases items.len(),
{
    if items.len() > 0 {
        lemma_dated_in_order_sorted(items.drop_last(), today);
        let s = dated_in_order(items.drop_last(), today);
        match due_date(items.last(), today) {
            Some(d) => lemma_insert_sorted(s, items.len() - 1, d),
            None => {},
        }
    }
}


/// Positions, in order, of the items without a readable deadline.
pub open spec fn undated_positions(items: Seq<ActionItem>, today: (int, int, int)) -> Seq<int>
    decreases items.len(),
{
    if items.len() == 0 {
        Seq::empty()
    } else {
        undated_positions(items.drop_last(), today) + if due_date(items.last(), today) is None {
            seq![items.len() - 1]
        } else {
            Seq::empty()
        }
    }
}

/// The order of work: dated items by date, then the undated ones.
pub open spec fn priority_positions(items: Seq<ActionItem>, today: (int, int, int)) -> Seq<int> {
    dated_in_order(items, today).map_values(|e: (int, (int, int, int))| e.0) + undated_positions(
        items,
        today,
    )
}

pub open spec fn entry_views(v: Seq<(usize, Date)>) -> Seq<(int, (int, int, int))> {
    v.map_values(|e: (usize, Date)| (e.0 as int, ymd(e.1)))
}

fn insert_position(s: &Vec<(usize, Date)>, d: Date) -> (j: usize)
    ensures
        j as int == first_later(entry_views(s@), ymd(d)),
        j <= s.len(),
{
    let ghost sv = entry_views(s@);
    let mut j: usize = 0;
    assert(sv.skip(0) =~= sv);
    while j < s.len() && !is_before(d, s[j].1)
        invariant
            j <= s.len(),
            sv == entry_views(s@),
            first_later(sv, ymd(d)) == j + first_later(sv.skip(j as int), ymd(d)),
        decreases s.len() - j,
    {
        assert(sv.skip(j as int)[0] == sv[j as int]);
        assert(sv.skip(j as int).drop_first() =~= sv.skip(j + 1));
        j = j + 1;
    }
    if j < s.len() {
        assert(sv.skip(j as int)[0] == sv[j as int]);
    } else {
        assert(sv.skip(j as int).len() == 0);
    }
    j
}

/// Positions of the items in order of work: those whose deadline reads as a
/// date, earliest first (equal dates in their original order), then those
/// without one, in their original order.
pub fn priority_order(items: &Vec<ActionItem>, today: Date) -> (r: Vec<usize>)
    requires
        is_date(ymd(today)),
        today.year < max_year(),
    ensures
        as_ints(r@) == priority_positions(items@, ymd(today)),
{
    let mut dated: Vec<(usize, Date)> = Vec::new();
    let mut undated: Vec<usize> = Vec::new();
    let mut i: usize = 0;
    while i < items.len()
        invariant
            i <= items.len(),
            is_date(ymd(today)),
            today.year < max_year(),
            entry_views(dated@) == dated_in_order(items@.take(i as int), ymd(today)),
            as_ints(undated@) == undated_positions(items@.take(i as int), ymd(today)),
        decreases items.len() - i,
    {
        let ghost t = items@.take(i + 1);
        assert(t.drop_last() =~= items@.take(i as int));
        assert(t.last() == items@[i as int]);
        match due_date_exec(&items[i], today) {
            Some(d) => {
                let j = insert_position(&dated, d);
                let ghost before = entry_views(dated@);
                dated.insert(j, (i, d));
                assert(entry_views(dated@) =~= before.insert(j as int, (i as int, ymd(d))));
            },
            None => {
                let ghost before = as_ints(undated@);
                undated.push(i);
                assert(as_ints(undated@) =~= before.push(i as int));
            },
        }
        i = i + 1;
    }
    assert(items@.take(items.len() as int) =~= items@);
    let mut out: Vec<usize> = Vec::new();
    let mut k: usize = 0;
    while k < dated.len()
        invariant
            k <= dated.len(),
            as_ints(out@) == entry_views(dated@).take(k as int).map_values(
                |e: (int, (int, int, int))| e.0,
            ),
        decreases dated.len() - k,
    {
        let ghost before = as_ints(out@);
        out.push(dated[k].0);
        assert(as_ints(out@) =~= before.push(dated@[k as int].0 as int));
        assert(entry_views(dated@).take(k + 1).map_values(|e: (int, (int, int, int))| e.0)
            =~= entry_views(dated@).take(k as int).map_values(|e: (int, (int, int, int))| e.0).push(
            dated@[k as int].0 as int,
        ));
        k = k + 1;
    }
    assert(entry_views(dated@).take(dated.len() as int) =~= entry_views(dated@));
    let mut m: usize = 0;
    let ghost head = as_ints(out@);
    while m < undated.len()
        invariant
            m <= undated.len(),
            as_ints(out@) == head + as_ints(undated@).take(m as int),
        decreases undated.len() - m,
    {
        let ghost before = as_ints(out@);
        out.push(undated[m]);
        assert(as_ints(out@) =~= before.push(undated@[m as int] as int));
        assert(as_ints(undated@).take(m + 1) =~= as_ints(undated@).take(m as int).push(
            undated@[m as int] as int,
        ));
        m = m + 1;
    }
    assert(as_ints(undated@).take(undated.len() as int) =~= as_ints(undated@));
    out
}

} // verus!
