use hoags_tools::sheetwise::filter::{
    apply_filter, apply_filters, output_format, resolve_filter_args, Filter, FilterArgError, FilterOp, OutputFormat,
};
use hoags_tools::sheetwise::output::truncate;
use hoags_tools::sheetwise::reader::{build_sheet, detect_delimiter, infer_type, sheet_from_text, ColType};

#[test]
fn test_truncate_short() {
    assert_eq!(truncate("hello", 10), "hello");
}

#[test]
fn test_truncate_exact() {
    assert_eq!(truncate("hello", 5), "hello");
}

#[test]
fn test_truncate_long() {
    let result = truncate("hello world", 5);
    assert!(result.chars().count() <= 5);
    assert!(result.ends_with('…'));
}

#[test]
fn test_detect_delimiter_comma() {
    assert_eq!(detect_delimiter("a,b,c"), b',');
}

#[test]
fn test_detect_delimiter_tab() {
    assert_eq!(detect_delimiter("a\tb\tc"), b'\t');
}

#[test]
fn test_detect_delimiter_pipe() {
    assert_eq!(detect_delimiter("a|b|c"), b'|');
}

#[test]
fn delimiter_ties_go_to_the_later_candidate() {
    assert_eq!(detect_delimiter("abc"), b';');
    assert_eq!(detect_delimiter("a,b|c"), b'|');
}

#[test]
fn test_infer_integer() {
    let vals = vec!["1", "2", "3", "42"];
    assert_eq!(infer_type(&vals), ColType::Integer);
}

#[test]
fn test_infer_float() {
    let vals = vec!["1.5", "2.7", "3.14"];
    assert_eq!(infer_type(&vals), ColType::Float);
}

#[test]
fn test_infer_boolean() {
    let vals = vec!["true", "false", "True", "False"];
    assert_eq!(infer_type(&vals), ColType::Boolean);
}

#[test]
fn test_infer_string() {
    let vals = vec!["hello", "world", "foo"];
    assert_eq!(infer_type(&vals), ColType::String);
}

#[test]
fn infer_dates_and_currency() {
    assert_eq!(infer_type(&["2026-04-15", "2026-05-01", "", "n/a", "2026-06-30", "2026-07-04"]), ColType::Date);
    assert_eq!(infer_type(&["$1,200.50", "$30"]), ColType::Float);
    assert_eq!(infer_type(&["", ""]), ColType::String);
    assert_eq!(infer_type(&["1", "0", "1"]), ColType::Boolean);
    assert_eq!(ColType::Date.name(), "date");
}

fn sheet() -> hoags_tools::sheetwise::reader::Sheet {
    let headers = vec!["Name".to_string(), " Amount ".to_string(), "City".to_string()];
    let recs: Vec<Vec<String>> = vec![
        vec!["Alice".into(), "500".into(), "Denver".into()],
        vec!["Bob".into(), "1500".into(), "Austin".into()],
        vec!["Carol".into(), "1000".into()],
        vec!["Dave".into(), "2000".into(), "Boston".into(), "x".into()],
    ];
    build_sheet("data.csv", b',', &headers, &recs)
}

#[test]
fn sheet_rows_are_fitted_and_typed() {
    let s = sheet();
    assert_eq!(s.row_count(), 4);
    assert_eq!(s.col_count(), 3);
    assert_eq!(s.columns[1].name, "Amount");
    assert_eq!(s.columns[1].col_type, ColType::Integer);
    assert_eq!(s.rows[2], vec!["Carol", "1000", ""]);
    assert_eq!(s.rows[3].len(), 3);
}

#[test]
fn filters_select_rows() {
    let s = sheet();
    let eq = Filter { column: "city".into(), op: FilterOp::Eq, value: "DENVER".into() };
    assert_eq!(apply_filter(&s, &eq, &vec![None; 4]), vec![0]);
    let contains = Filter { column: "City".into(), op: FilterOp::Contains, value: "ON".into() };
    assert_eq!(apply_filter(&s, &contains, &vec![None; 4]), vec![3]);
    let gt = Filter { column: "Amount".into(), op: FilterOp::Gt, value: "1000".into() };
    let numeric = vec![Some(false), Some(true), Some(false), Some(true)];
    assert_eq!(apply_filter(&s, &gt, &numeric), vec![1, 3]);
    let lex = Filter { column: "Name".into(), op: FilterOp::Lt, value: "C".into() };
    assert_eq!(apply_filter(&s, &lex, &vec![None; 4]), vec![0, 1]);
    let missing = Filter { column: "Nope".into(), op: FilterOp::Eq, value: "x".into() };
    assert!(apply_filter(&s, &missing, &vec![None; 4]).is_empty());
    let ne = Filter { column: "City".into(), op: FilterOp::Ne, value: "Boston".into() };
    let gte = Filter { column: "Amount".into(), op: FilterOp::Gte, value: "1000".into() };
    let gte_num = vec![Some(false), Some(true), Some(true), Some(true)];
    assert_eq!(apply_filters(&s, &[gte, ne], &vec![gte_num, vec![None; 4]]), vec![1, 2]);
    assert_eq!(apply_filters(&s, &[], &vec![]), vec![0, 1, 2, 3]);
}

#[test]
fn filter_arguments() {
    assert_eq!(FilterOp::from_str("StartsWith"), Some(FilterOp::StartsWith));
    assert_eq!(FilterOp::from_str("between"), None);
    let (op, v) = resolve_filter_args("eq", None, Some("5".into()), None, None, Some("9".into())).unwrap();
    assert_eq!((op, v.as_str()), (FilterOp::Lt, "5"));
    assert_eq!(resolve_filter_args("gte", None, None, None, None, None).unwrap_err(), FilterArgError::MissingValue);
    assert_eq!(
        resolve_filter_args("zz", None, None, None, None, Some("1".into())).unwrap_err(),
        FilterArgError::UnknownOperator("zz".into())
    );
    assert_eq!(output_format("JSON"), OutputFormat::Json);
    assert_eq!(output_format("whatever"), OutputFormat::Table);
}

use hoags_tools::sheetwise::reshape::{align_rows, merge_column_names, sample_positions, unique_values};

fn sheet_of(headers: &[&str], rows: &[&[&str]]) -> hoags_tools::sheetwise::reader::Sheet {
    let h: Vec<String> = headers.iter().map(|s| s.to_string()).collect();
    let r: Vec<Vec<String>> = rows.iter().map(|row| row.iter().map(|s| s.to_string()).collect()).collect();
    hoags_tools::sheetwise::reader::build_sheet("mem.csv", b',', &h, &r)
}

#[test]
fn merge_columns_and_align() {
    let a = sheet_of(&["Name", "Amount"], &[&["x", "1"]]);
    let b = sheet_of(&["amount", "Region"], &[&["2", "west"]]);
    let names = merge_column_names(&a, &b);
    assert_eq!(names, vec!["Name".to_string(), "Amount".to_string(), "Region".to_string()]);
    assert_eq!(align_rows(&a, &names), vec![vec!["x".to_string(), "1".to_string(), String::new()]]);
    assert_eq!(align_rows(&b, &names), vec![vec![String::new(), "2".to_string(), "west".to_string()]]);
}

#[test]
fn unique_values_first_seen_order() {
    let s = sheet_of(&["cat"], &[&["b"], &["a"], &["b"], &["c"]]);
    assert_eq!(unique_values(&s, "CAT"), Some(vec!["b".to_string(), "a".to_string(), "c".to_string()]));
    assert_eq!(unique_values(&s, "dog"), None);
}

#[test]
fn sample_positions_stride() {
    assert_eq!(sample_positions(10, 3), vec![0, 3, 6]);
    assert_eq!(sample_positions(3, 5), vec![0, 1, 2]);
    assert_eq!(sample_positions(0, 0), Vec::<usize>::new());
}

fn make_sheet() -> hoags_tools::sheetwise::reader::Sheet {
    sheet_of(
        &["Name", "Amount", "City"],
        &[&["Alice", "500", "Denver"], &["Bob", "1500", "Austin"], &["Carol", "1000", "Denver"], &["Dave", "2000", "Boston"]],
    )
}

/// The numeric outcome of an ordering filter on the Amount column, row by
/// row, as the command line computes it in floating point.
fn amount_outcomes(sheet: &hoags_tools::sheetwise::reader::Sheet, value: f64, pass: fn(f64, f64) -> bool) -> Vec<Option<bool>> {
    sheet.rows.iter().map(|r| r[1].parse::<f64>().ok().map(|cv| pass(cv, value))).collect()
}

#[test]
fn test_filter_gt() {
    let sheet = make_sheet();
    let f = Filter { column: "Amount".to_string(), op: FilterOp::Gt, value: "1000".to_string() };
    let rows = apply_filter(&sheet, &f, &amount_outcomes(&sheet, 1000.0, |a, b| a > b));
    assert_eq!(rows.len(), 2);
}

#[test]
fn test_filter_eq() {
    let sheet = make_sheet();
    let f = Filter { column: "City".to_string(), op: FilterOp::Eq, value: "Denver".to_string() };
    let rows = apply_filter(&sheet, &f, &vec![None; 4]);
    assert_eq!(rows.len(), 2);
}

#[test]
fn test_filter_contains() {
    let sheet = make_sheet();
    let f = Filter { column: "City".to_string(), op: FilterOp::Contains, value: "on".to_string() };
    let rows = apply_filter(&sheet, &f, &vec![None; 4]);
    assert_eq!(rows.len(), 1);
}

#[test]
fn test_filter_starts_with() {
    let sheet = make_sheet();
    let f = Filter { column: "Name".to_string(), op: FilterOp::StartsWith, value: "A".to_string() };
    let rows = apply_filter(&sheet, &f, &vec![None; 4]);
    assert_eq!(rows.len(), 1);
}

#[test]
fn test_chained_filters() {
    let sheet = make_sheet();
    let filters = vec![
        Filter { column: "Amount".to_string(), op: FilterOp::Gte, value: "1000".to_string() },
        Filter { column: "City".to_string(), op: FilterOp::Ne, value: "Boston".to_string() },
    ];
    let numeric = vec![amount_outcomes(&sheet, 1000.0, |a, b| a >= b), vec![None; 4]];
    let rows = apply_filters(&sheet, &filters, &numeric);
    assert_eq!(rows.len(), 2);
}

#[test]
fn string_ordering_ignores_case() {
    let sheet = make_sheet();
    let f = Filter { column: "Name".to_string(), op: FilterOp::Gt, value: "b".to_string() };
    assert_eq!(apply_filter(&sheet, &f, &vec![None; 4]), vec![1, 2, 3]);
    let g = Filter { column: "Name".to_string(), op: FilterOp::Gt, value: "a".to_string() };
    assert_eq!(apply_filter(&sheet, &g, &vec![None; 4]), vec![0, 1, 2, 3]);
}

#[test]
fn test_read_csv() {
    let raw = "Name,Amount,Active\nAlice,100,true\nBob,200,false\n";
    let sheet = sheet_from_text("people.csv", raw).unwrap();
    assert_eq!(sheet.col_count(), 3);
    assert_eq!(sheet.row_count(), 2);
    assert_eq!(sheet.columns[1].col_type, ColType::Integer);
    assert_eq!(sheet.columns[2].col_type, ColType::Boolean);
}

#[test]
fn sheet_text_detects_delimiter_and_pads() {
    let sheet = sheet_from_text("t.tsv", "a\tb\n 1 \n2\t3\t4\n").unwrap();
    assert_eq!(sheet.delimiter, b'\t');
    assert_eq!(sheet.rows, vec![vec!["1", ""], vec!["2", "3"]]);
    assert_eq!(sheet.path, "t.tsv");
}
