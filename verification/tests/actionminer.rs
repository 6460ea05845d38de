use hoags_tools::actionminer::extract::extract;

#[test]
fn test_explicit_action_label() {
    let text = "ACTION: Send contract to legal team by Friday";
    let items = extract(text, "test.md").unwrap();
    assert_eq!(items.len(), 1);
    assert!(items[0].description.contains("Send contract"));
}

#[test]
fn test_todo_label() {
    let text = "TODO: Update the pricing spreadsheet";
    let items = extract(text, "test.md").unwrap();
    assert_eq!(items.len(), 1);
    assert!(items[0].description.contains("pricing spreadsheet"));
}

#[test]
fn test_section_header_bullets() {
    let text = "Action Items:\n- Review proposal\n- Call vendor\n- Update budget\n";
    let items = extract(text, "meeting.md").unwrap();
    assert_eq!(items.len(), 3);
    assert!(items.iter().any(|i| i.description.contains("Review proposal")));
    assert!(items.iter().any(|i| i.description.contains("Call vendor")));
}

#[test]
fn test_verb_phrase_trigger() {
    let text = "John needs to submit the invoice before end of month.";
    let items = extract(text, "notes.txt").unwrap();
    assert_eq!(items.len(), 1);
}

#[test]
fn test_deadline_extraction() {
    let text = "ACTION: Submit bid by March 15";
    let items = extract(text, "test.md").unwrap();
    assert!(!items.is_empty());
    assert_eq!(items[0].deadline.as_deref(), Some("March 15"));
}

#[test]
fn test_at_mention_assignee() {
    let text = "TODO: Finalize report @alice";
    let items = extract(text, "test.md").unwrap();
    assert!(!items.is_empty());
    assert_eq!(items[0].assignee.as_deref(), Some("@alice"));
}

#[test]
fn test_explicit_assigned_to() {
    let text = "ACTION: Review contract\nAssigned to: Bob Smith";
    let items = extract(text, "test.md").unwrap();
    assert!(!items.is_empty());
    let _ = &items[0].assignee;
}

#[test]
fn test_dedup() {
    let text = "ACTION: Do the thing\nACTION: Do the thing\n";
    let items = extract(text, "test.md").unwrap();
    assert_eq!(items.len(), 1);
}

#[test]
fn test_empty_input() {
    let items = extract("", "test.md").unwrap();
    assert!(items.is_empty());
}

#[test]
fn test_must_trigger() {
    let text = "The contractor must submit weekly status reports.";
    let items = extract(text, "sow.md").unwrap();
    assert_eq!(items.len(), 1);
    assert!(items[0].description.contains("weekly status reports"));
}

#[test]
fn items_record_source_and_open_status() {
    let items = extract("TODO: Check the fence line", "notes.md").unwrap();
    assert_eq!(items.len(), 1);
    assert_eq!(items[0].source_file, "notes.md");
    assert_eq!(items[0].status, "open");
    assert_eq!(items[0].id, 0);
    assert_eq!(items[0].description, "Check the fence line");
}

#[test]
fn standalone_deadline_line_fills_previous_item() {
    let items = extract("TODO: Order gravel\nDeadline: June 30", "n.md").unwrap();
    assert_eq!(items.len(), 1);
    assert_eq!(items[0].deadline.as_deref(), Some("June 30"));
}

#[test]
fn section_ends_at_header_like_line() {
    let text = "Action Items:\n- Paint shed\nNotes:\nThe weather was fine.";
    let items = extract(text, "m.md").unwrap();
    assert_eq!(items.len(), 1);
    assert_eq!(items[0].description, "Paint shed");
}

#[test]
fn adjacent_duplicates_only_are_merged() {
    let text = "TODO: A task\nTODO: B task\nTODO: A task";
    let items = extract(text, "m.md").unwrap();
    assert_eq!(items.len(), 3);
}

// ── deadline phrases ────────────────────────────────────────────────────────

use chrono::{Datelike, Local, NaiveDate, Weekday};
use hoags_tools::actionminer::deadline::{end_of_week, next_weekday, parse_deadline, parse_deadline_on};
use hoags_tools::calendar::Date;

fn naive(d: Date) -> NaiveDate {
    NaiveDate::from_ymd_opt(d.year, d.month, d.day).unwrap()
}

fn date(year: i32, month: u32, day: u32) -> Date {
    Date { year, month, day }
}

#[test]
fn test_iso_date() {
    let d = parse_deadline("2026-04-15").unwrap();
    assert_eq!(naive(d), NaiveDate::from_ymd_opt(2026, 4, 15).unwrap());
}

#[test]
fn test_us_slash_date() {
    let d = parse_deadline("04/15/2026").unwrap();
    assert_eq!(naive(d), NaiveDate::from_ymd_opt(2026, 4, 15).unwrap());
}

#[test]
fn test_month_day_year() {
    let d = parse_deadline("April 15, 2026").unwrap();
    assert_eq!(naive(d), NaiveDate::from_ymd_opt(2026, 4, 15).unwrap());
}

#[test]
fn test_month_day_year_abbrev() {
    let d = parse_deadline("Apr 15 2026").unwrap();
    assert_eq!(naive(d), NaiveDate::from_ymd_opt(2026, 4, 15).unwrap());
}

#[test]
fn test_end_of_week() {
    let d = parse_deadline("end of week").unwrap();
    assert_eq!(naive(d).weekday(), Weekday::Sun);
}

#[test]
fn test_end_of_month() {
    let d = parse_deadline("end of month").unwrap();
    let today = Local::now().date_naive();
    assert_eq!(naive(d).month(), today.month());
    let (ny, nm) = if today.month() == 12 { (today.year() + 1, 1) } else { (today.year(), today.month() + 1) };
    let last = NaiveDate::from_ymd_opt(ny, nm, 1).unwrap().pred_opt().unwrap();
    assert_eq!(naive(d), last);
}

#[test]
fn test_by_end_of_week() {
    let d = parse_deadline("by end of week").unwrap();
    assert_eq!(naive(d).weekday(), Weekday::Sun);
}

#[test]
fn test_next_monday() {
    let d = parse_deadline("next Monday").unwrap();
    assert_eq!(naive(d).weekday(), Weekday::Mon);
    assert!(naive(d) > Local::now().date_naive());
}

#[test]
fn test_next_friday() {
    let d = parse_deadline("next Friday").unwrap();
    assert_eq!(naive(d).weekday(), Weekday::Fri);
}

#[test]
fn test_unknown_returns_none() {
    assert!(parse_deadline("sometime soon").is_none());
    assert!(parse_deadline("ASAP").is_none());
}

#[test]
fn test_march_15() {
    let d = parse_deadline("March 15");
    assert!(d.is_some());
    let d = d.unwrap();
    assert_eq!(d.month, 3);
    assert_eq!(d.day, 15);
}

#[test]
fn deadline_fixed_day_relative_phrases() {
    // 2026-04-15 is a Wednesday.
    let today = date(2026, 4, 15);
    assert_eq!(parse_deadline_on("end of week", today), Some(date(2026, 4, 19)));
    assert_eq!(parse_deadline_on("by end of month", today), Some(date(2026, 4, 30)));
    assert_eq!(parse_deadline_on("next Wednesday", today), Some(date(2026, 4, 22)));
    assert_eq!(parse_deadline_on("next thu", today), Some(date(2026, 4, 16)));
    assert_eq!(parse_deadline_on("Monday", today), Some(date(2026, 4, 20)));
    assert_eq!(parse_deadline_on("  by   friday ", today), Some(date(2026, 4, 17)));
}

#[test]
fn deadline_month_day_rolls_to_next_year() {
    let today = date(2026, 4, 15);
    assert_eq!(parse_deadline_on("March 15", today), Some(date(2027, 3, 15)));
    assert_eq!(parse_deadline_on("May 1", today), Some(date(2026, 5, 1)));
    assert_eq!(parse_deadline_on("April 15", today), Some(date(2026, 4, 15)));
}

#[test]
fn deadline_other_formats() {
    let today = date(2026, 4, 15);
    assert_eq!(parse_deadline_on("15 April 2026", today), Some(date(2026, 4, 15)));
    assert_eq!(parse_deadline_on("15 Apr 2026", today), Some(date(2026, 4, 15)));
    assert_eq!(parse_deadline_on("end of month", date(2028, 2, 3)), Some(date(2028, 2, 29)));
    assert_eq!(parse_deadline_on("end of week", date(2026, 4, 19)), Some(date(2026, 4, 19)));
    assert_eq!(parse_deadline_on("whenever", today), None);
}

use hoags_tools::actionminer::models::ActionItem;
use hoags_tools::actionminer::tracker::{export_csv_text, overdue_items, priority_order};

fn item(id: i64, desc: &str, deadline: Option<&str>) -> ActionItem {
    ActionItem {
        id,
        description: desc.to_string(),
        assignee: None,
        deadline: deadline.map(|d| d.to_string()),
        source_file: "notes.md".to_string(),
        status: "open".to_string(),
        created_at: "2026-04-01T00:00:00Z".to_string(),
    }
}

#[test]
fn tracker_export_csv_rows() {
    let mut a = item(1, "Send report, then call", Some("2026-04-20"));
    a.assignee = Some("@bob".to_string());
    let b = item(2, "Say \"hi\"", None);
    let csv = export_csv_text(&vec![a, b]);
    assert_eq!(
        csv,
        "id,description,assignee,deadline,source_file,status,created_at\n\
         1,\"Send report, then call\",@bob,2026-04-20,notes.md,open,2026-04-01T00:00:00Z\n\
         2,\"Say \"\"hi\"\"\",,,notes.md,open,2026-04-01T00:00:00Z\n"
    );
}

#[test]
fn tracker_overdue_and_priority() {
    let today = Date { year: 2026, month: 4, day: 15 };
    let items = vec![
        item(1, "a", Some("2026-04-20")),
        item(2, "b", None),
        item(3, "c", Some("2026-04-10")),
        item(4, "d", Some("whenever")),
        item(5, "e", Some("2026-04-10")),
    ];
    assert_eq!(overdue_items(&items, today), vec![2, 4]);
    assert_eq!(priority_order(&items, today), vec![2, 4, 0, 1, 3]);
}

#[test]
fn test_export_csv_format() {
    let item = ActionItem::new("Write tests".into(), Some("@bob".into()), None, "src.md".into());
    let csv = export_csv_text(&vec![item]);
    assert!(csv.starts_with("id,description"), "csv should start with header");
    assert!(csv.contains("Write tests"));
    assert!(csv.contains("@bob"));
}

#[test]
fn next_weekday_is_one_to_seven_days_ahead() {
    let wed = Date { year: 2026, month: 4, day: 15 };
    assert_eq!(next_weekday(wed, 4), Date { year: 2026, month: 4, day: 17 });
    assert_eq!(next_weekday(wed, 2), Date { year: 2026, month: 4, day: 22 });
    assert_eq!(next_weekday(wed, 0), Date { year: 2026, month: 4, day: 20 });
    let end_of_april = Date { year: 2026, month: 4, day: 30 };
    assert_eq!(next_weekday(end_of_april, 4), Date { year: 2026, month: 5, day: 1 });
}

#[test]
fn end_of_week_is_the_coming_sunday() {
    assert_eq!(end_of_week(Date { year: 2026, month: 4, day: 15 }), Date { year: 2026, month: 4, day: 19 });
    assert_eq!(end_of_week(Date { year: 2026, month: 4, day: 19 }), Date { year: 2026, month: 4, day: 19 });
    assert_eq!(end_of_week(Date { year: 2026, month: 12, day: 28 }), Date { year: 2027, month: 1, day: 3 });
}

#[test]
fn month_day_reads_the_next_occurrence_except_a_missing_leap_day() {
    let today = date(2028, 3, 1);
    assert_eq!(parse_deadline_on("March 1", today), Some(date(2028, 3, 1)));
    assert_eq!(parse_deadline_on("February 28", today), Some(date(2029, 2, 28)));
    assert_eq!(parse_deadline_on("February 29", today), Some(date(2028, 2, 29)));
}
