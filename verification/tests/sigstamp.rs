use hoags_tools::sigstamp::content::text_literals;
use hoags_tools::sigstamp::detect::is_sig_label;
use hoags_tools::sigstamp::pages::parse_page_range;
use hoags_tools::sigstamp::sign::escape_pdf;

#[test]
fn test_is_sig_label_signature() {
    assert!(is_sig_label("Signature"));
    assert!(is_sig_label("SIGNATURE"));
    assert!(is_sig_label("Offeror Signature"));
    assert!(is_sig_label("Authorized Signature"));
}

#[test]
fn test_is_sig_label_sign_variants() {
    assert!(is_sig_label("Sign Here"));
    assert!(is_sig_label("Sign Below"));
    assert!(is_sig_label("signed by"));
}

#[test]
fn test_is_sig_label_authorized() {
    assert!(is_sig_label("Authorized Representative"));
    assert!(is_sig_label("Authorized by"));
}

#[test]
fn test_is_sig_label_sf1449_blocks() {
    assert!(is_sig_label("Block 30"));
    assert!(is_sig_label("Block 31"));
    assert!(is_sig_label("block 21"));
}

#[test]
fn test_is_sig_label_rejects_non_sig() {
    assert!(!is_sig_label("Name"));
    assert!(!is_sig_label("Date"));
    assert!(!is_sig_label("Address"));
    assert!(!is_sig_label("Total Price"));
    assert!(!is_sig_label("NAICS Code"));
}

#[test]
fn test_parse_page_range_single() {
    assert_eq!(parse_page_range("3").unwrap(), (3, 3));
}

#[test]
fn test_parse_page_range_range() {
    assert_eq!(parse_page_range("1-3").unwrap(), (1, 3));
    assert_eq!(parse_page_range("2-5").unwrap(), (2, 5));
}

#[test]
fn test_parse_page_range_invalid() {
    assert!(parse_page_range("0").is_err());
    assert!(parse_page_range("3-1").is_err());
    assert!(parse_page_range("abc").is_err());
}

#[test]
fn test_parse_page_range_whitespace() {
    assert_eq!(parse_page_range(" 2 - 4 ").unwrap(), (2, 4));
}

#[test]
fn page_range_messages() {
    assert_eq!(parse_page_range("3-1").unwrap_err(), "Page range start (3) must be <= end (1)");
    assert_eq!(parse_page_range("abc").unwrap_err(), "Invalid page number: 'abc'");
    assert_eq!(parse_page_range("x-2").unwrap_err(), "Invalid page range start: 'x'");
    assert_eq!(parse_page_range("0").unwrap_err(), "Page numbers are 1-based; 0 is not valid");
}

#[test]
fn test_escape_pdf_parens() {
    let escaped = escape_pdf("Hoags (Inc.)");
    assert_eq!(escaped, "Hoags \\(Inc.\\)");
}

#[test]
fn test_escape_pdf_backslash() {
    let escaped = escape_pdf("path\\to\\file");
    assert_eq!(escaped, "path\\\\to\\\\file");
}

#[test]
fn contracting_officer_needs_sign() {
    assert!(!is_sig_label("Contracting Officer"));
    assert!(is_sig_label("Contracting Officer (sign)"));
}

use hoags_tools::sigstamp::detect::keyword_hits;

#[test]
fn keyword_scan_finds_each_keyword_once_per_page() {
    let pages = vec![
        (1u32, "Block 30 Signature of Offeror".to_string()),
        (2u32, "Nothing here".to_string()),
        (3u32, "Contracting Officer Signature ... Signature".to_string()),
    ];
    let hits = keyword_hits(&pages);
    assert_eq!(
        hits,
        vec![
            (0, "Signature".to_string()),
            (0, "Block 30".to_string()),
            (2, "Signature".to_string()),
            (2, "Contracting Officer Signature".to_string()),
        ]
    );
}

#[test]
fn keyword_scan_page_zero_shares_first_position() {
    let pages = vec![(0u32, "Sign Here".to_string()), (1u32, "Sign Here".to_string())];
    assert_eq!(keyword_hits(&pages), vec![(0, "Sign Here".to_string())]);
}

#[test]
fn content_literals_nest_escape_and_show() {
    let s = "BT (Sign) Tj (a\\)b(c)) TJ ( ) Tj (open";
    let lits = text_literals(s);
    assert_eq!(lits, vec![(3, 8, true), (13, 21, false), (26, 28, false)]);
    let chars: Vec<char> = s.chars().collect();
    assert_eq!(chars[14..21].iter().collect::<String>(), "a\\)b(c)");
    assert_eq!(text_literals("(x)\n  Tj"), vec![(0, 2, true)]);
}
