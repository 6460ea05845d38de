use hoags_tools::docconv::convert::{
    convert, csv_escape, csv_join, csv_str_to_json, json_rows_to_csv, json_str_to_csv, parse_csv_line, parse_csv_records, Conversion, CsvError, JsonCsvError,
};
use hoags_tools::docconv::extract::{extract_all_text, extract_tables, split_cells};
use hoags_tools::docconv::formats::{detect_format, is_supported, Format};
use hoags_tools::docconv::pdf_ops::{parse_page_range, PageRangeErrorKind};

#[test]
fn csv_escape_no_special() {
    assert_eq!(csv_escape("hello"), "hello");
}

#[test]
fn csv_escape_comma() {
    assert_eq!(csv_escape("a,b"), "\"a,b\"");
}

#[test]
fn csv_escape_quote() {
    assert_eq!(csv_escape("say \"hi\""), "\"say \"\"hi\"\"\"");
}

#[test]
fn split_cells_tab_separated() {
    let cells = split_cells("Name\tAge\tCity");
    assert_eq!(cells, vec!["Name", "Age", "City"]);
}

#[test]
fn split_cells_multi_space() {
    let cells = split_cells("Alice   30   NYC");
    assert!(cells.len() >= 2);
    assert!(cells.iter().any(|c| c == "Alice"));
}

#[test]
fn split_cells_single_word_no_split() {
    let cells = split_cells("hello");
    assert_eq!(cells, vec!["hello"]);
}

#[test]
fn detect_pdf() {
    assert_eq!(detect_format("foo.pdf"), Format::Pdf);
}

#[test]
fn detect_csv() {
    assert_eq!(detect_format("data.csv"), Format::Csv);
}

#[test]
fn detect_json() {
    assert_eq!(detect_format("out.json"), Format::Json);
}

#[test]
fn detect_txt() {
    assert_eq!(detect_format("notes.txt"), Format::Text);
}

#[test]
fn from_str_case_insensitive() {
    assert_eq!(Format::from_str("PDF"), Format::Pdf);
    assert_eq!(Format::from_str(".csv"), Format::Csv);
    assert_eq!(Format::from_str("JSON"), Format::Json);
    assert_eq!(Format::from_str("txt"), Format::Text);
    assert_eq!(Format::from_str("text"), Format::Text);
}

#[test]
fn supported_paths() {
    assert!(is_supported(&Format::Pdf, &Format::Text));
    assert!(is_supported(&Format::Pdf, &Format::Json));
    assert!(is_supported(&Format::Csv, &Format::Json));
    assert!(is_supported(&Format::Json, &Format::Csv));
}

#[test]
fn unsupported_path() {
    assert!(!is_supported(&Format::Text, &Format::Pdf));
    assert!(!is_supported(&Format::Csv, &Format::Pdf));
}

#[test]
fn extension_round_trip() {
    assert_eq!(Format::Pdf.extension(), "pdf");
    assert_eq!(Format::Csv.extension(), "csv");
    assert_eq!(Format::Json.extension(), "json");
    assert_eq!(Format::Text.extension(), "txt");
}

#[test]
fn parse_single_page() {
    let (s, e) = parse_page_range("3").unwrap();
    assert_eq!((s, e), (3, 3));
}

#[test]
fn parse_range() {
    let (s, e) = parse_page_range("1-5").unwrap();
    assert_eq!((s, e), (1, 5));
}

#[test]
fn parse_range_with_spaces() {
    let (s, e) = parse_page_range(" 2 - 4 ").unwrap();
    assert_eq!((s, e), (2, 4));
}

#[test]
fn parse_range_inverted_errors() {
    assert!(parse_page_range("5-2").is_err());
}

#[test]
fn parse_zero_page_errors() {
    assert!(parse_page_range("0").is_err());
    assert!(parse_page_range("0-3").is_err());
}

#[test]
fn parse_invalid_string_errors() {
    assert!(parse_page_range("abc").is_err());
    assert!(parse_page_range("1-z").is_err());
}

#[test]
fn page_range_error_kinds() {
    assert_eq!(parse_page_range("5-2").unwrap_err().kind, PageRangeErrorKind::StartAfterEnd(5, 2));
    let e = parse_page_range("x -3").unwrap_err();
    assert_eq!(e.kind, PageRangeErrorKind::InvalidStart);
    assert_eq!(e.detail, "x ");
    assert_eq!(parse_page_range("0").unwrap_err().kind, PageRangeErrorKind::ZeroPage);
    assert_eq!(parse_page_range("+7").unwrap(), (7, 7));
    assert_eq!(parse_page_range("4294967296").unwrap_err().kind, PageRangeErrorKind::InvalidPage);
}

#[test]
fn unknown_extension_and_odd_paths() {
    assert_eq!(detect_format("archive.tar.GZ"), Format::Unknown("gz".to_string()));
    assert_eq!(detect_format("README"), Format::Unknown(String::new()));
    assert_eq!(detect_format("dir/.hidden"), Format::Unknown(String::new()));
    assert_eq!(detect_format("a/b.PDF/"), Format::Pdf);
    assert_eq!(Format::from_str("..PdF"), Format::Pdf);
    assert_eq!(Format::from_str("xlsx"), Format::Unknown("xlsx".to_string()));
    assert_eq!(Format::Unknown("md".to_string()).display_name(), "Unknown(md)");
}

#[test]
fn csv_line_parsing() {
    assert_eq!(parse_csv_line("a, \"b,c\" ,\"say \"\"hi\"\"\""), vec!["a", "b,c", "say \"hi\""]);
    assert_eq!(parse_csv_line(""), vec![""]);
    assert_eq!(csv_join(&vec!["x".to_string(), "y,z".to_string()]), "x,\"y,z\"");
}

#[test]
fn csv_records_fit_the_headers() {
    let t = parse_csv_records("name,age,city\nAlice,30\n\n  Bob,25,LA,extra  \n").unwrap();
    assert_eq!(t.headers, vec!["name", "age", "city"]);
    assert_eq!(t.rows, vec![vec!["Alice", "30", ""], vec!["Bob", "25", "LA"]]);
    assert!(matches!(parse_csv_records(""), Err(CsvError::Empty)));
    assert_eq!(parse_csv_records("a,b\n").unwrap().rows.len(), 0);
}

#[test]
fn json_rows_render_as_csv() {
    let rows = vec![
        Some(vec![("name".to_string(), "Alice".to_string()), ("note".to_string(), "hi, there".to_string())]),
        None,
        Some(vec![("age".to_string(), "30".to_string()), ("name".to_string(), "Bob".to_string())]),
    ];
    assert_eq!(json_rows_to_csv(&rows), "name,note,age\nAlice,\"hi, there\",\nBob,,30\n");
    assert_eq!(json_rows_to_csv(&vec![]), "");
    assert_eq!(json_rows_to_csv(&vec![None]), "\n");
}

#[test]
fn tables_and_page_text() {
    let text = "Name\tAge\nsingle\n  Alice   30  \n\n";
    assert_eq!(extract_tables(text), vec![vec!["Name", "Age"], vec!["Alice", "30"]]);
    assert_eq!(extract_all_text(&vec!["p1".to_string(), "p2".to_string()]), "p1\n\np2");
}

#[test]
fn conversions_are_routed() {
    assert!(matches!(convert("in.PDF", &Format::Text), Ok(Conversion::PdfToText)));
    assert!(matches!(convert("in.csv", &Format::Json), Ok(Conversion::CsvToJson)));
    let err = convert("in.txt", &Format::Pdf).err().unwrap();
    assert_eq!(err.from, Format::Text);
}

use hoags_tools::docconv::pdf_ops::{check_page, renumber_starts, split_plan};

#[test]
fn split_plan_keeps_range() {
    assert_eq!(split_plan(2, 3, 5), Ok(vec![1, 4, 5]));
    assert_eq!(split_plan(1, 5, 5), Ok(vec![]));
}

#[test]
fn split_plan_out_of_bounds() {
    assert_eq!(
        split_plan(2, 9, 5),
        Err("Page range 2-9 is out of bounds (document has 5 pages)".to_string())
    );
    assert!(split_plan(0, 1, 5).is_err());
}

#[test]
fn check_page_bounds() {
    assert_eq!(check_page(1, 3), Ok(()));
    assert_eq!(check_page(4, 3), Err("Page 4 out of range (document has 3 pages)".to_string()));
    assert!(check_page(0, 3).is_err());
}

#[test]
fn merge_renumbering_offsets() {
    assert_eq!(renumber_starts(&vec![10, 7, 3]), vec![None, Some(11), Some(18)]);
    assert_eq!(renumber_starts(&vec![0, 4]), vec![None, None]);
}

#[test]
fn page_range_error_messages() {
    assert_eq!(parse_page_range("x-3").unwrap_err().message(), "Invalid start page: x");
    assert_eq!(parse_page_range("1-y").unwrap_err().message(), "Invalid end page: y");
    assert_eq!(parse_page_range("0-3").unwrap_err().message(), "Page numbers are 1-indexed; got: 0-3");
    assert_eq!(parse_page_range("5-2").unwrap_err().message(), "Start page (5) must be <= end page (2)");
    assert_eq!(parse_page_range("abc").unwrap_err().message(), "Invalid page number: abc");
    assert_eq!(parse_page_range("0").unwrap_err().message(), "Page numbers are 1-indexed; got 0");
}

/// The cell under `header` in data row `row`, as the JSON object of that row
/// would hold it.
fn cell<'a>(t: &'a hoags_tools::docconv::convert::CsvTable, row: usize, header: &str) -> &'a str {
    let i = t.headers.iter().position(|h| h == header).unwrap();
    &t.rows[row][i]
}

#[test]
fn csv_to_json_basic() {
    let csv = "name,age,city\nAlice,30,NYC\nBob,25,LA\n";
    let t = parse_csv_records(csv).unwrap();
    assert_eq!(t.rows.len(), 2);
    assert_eq!(cell(&t, 0, "name"), "Alice");
    assert_eq!(cell(&t, 0, "age"), "30");
    assert_eq!(cell(&t, 1, "city"), "LA");
}

#[test]
fn csv_quoted_field() {
    let csv = "name,notes\nAlice,\"hello, world\"\n";
    let t = parse_csv_records(csv).unwrap();
    assert_eq!(cell(&t, 0, "notes"), "hello, world");
}

#[test]
fn csv_empty_fields() {
    let csv = "a,b,c\n1,,3\n";
    let t = parse_csv_records(csv).unwrap();
    assert_eq!(cell(&t, 0, "b"), "");
}

#[test]
fn csv_single_row_no_data() {
    let csv = "name,age\n";
    let t = parse_csv_records(csv).unwrap();
    assert_eq!(t.rows.len(), 0);
}

#[test]
fn json_to_csv_basic() {
    let json = r#"[{"name":"Alice","age":"30"},{"name":"Bob","age":"25"}]"#;
    let csv = json_str_to_csv(json).unwrap();
    let lines: Vec<&str> = csv.lines().collect();
    assert!(lines[0].contains("name") && lines[0].contains("age"), "header: {}", lines[0]);
    assert!(lines[1].contains("Alice") && lines[1].contains("30"), "row1: {}", lines[1]);
    assert!(lines[2].contains("Bob") && lines[2].contains("25"), "row2: {}", lines[2]);
}

#[test]
fn json_to_csv_needs_quoting() {
    let json = r#"[{"note":"hello, world"}]"#;
    let csv = json_str_to_csv(json).unwrap();
    assert!(csv.contains("\"hello, world\""));
}

#[test]
fn json_to_csv_empty_array() {
    let csv = json_str_to_csv("[]").unwrap();
    assert_eq!(csv, "");
}

#[test]
fn json_to_csv_not_array_errors() {
    let result = json_str_to_csv(r#"{"key":"val"}"#);
    assert!(result.is_err());
    assert_eq!(result.unwrap_err(), JsonCsvError::NotAnArray);
}

#[test]
fn json_to_csv_cells_and_errors() {
    let csv = json_str_to_csv(r#"[{"a":1,"b":true,"c":null,"d":[1,2]}, 5]"#).unwrap();
    assert_eq!(csv, "a,b,c,d\n1,true,,\"[1,2]\"\n");
    let err = json_str_to_csv("not json").unwrap_err();
    assert!(err.message().starts_with("Invalid JSON: "));
    assert_eq!(JsonCsvError::NotAnArray.message(), "JSON must be an array of objects");
}

#[test]
fn csv_text_to_pretty_json() {
    let json = csv_str_to_json("name,age\nAlice,30\n").unwrap();
    assert!(json.starts_with("[\n  {\n    "), "{json}");
    assert!(json.contains("\n    \"age\": \"30\"") && json.contains("\n    \"name\": \"Alice\""), "{json}");
    assert!(json.ends_with("\n  }\n]"), "{json}");
    assert!(matches!(csv_str_to_json(""), Err(CsvError::Empty)));
    assert_eq!(csv_str_to_json("a\n").unwrap(), "[]");
}

#[test]
fn split_cells_two_spaces_separate() {
    assert_eq!(split_cells("Alice  30"), vec!["Alice", "30"]);
    assert_eq!(split_cells("a b  c     d"), vec!["a b", "c", "d"]);
}

#[test]
fn detect_agrees_with_parsing_the_extension() {
    for (path, ext) in [("A.PDF", "PDF"), ("data.Csv", "Csv"), ("x.TEXT", "TEXT"), ("README", ""), ("a.Md", "Md")] {
        assert_eq!(detect_format(path), Format::from_str(ext));
    }
}
