use hoags_tools::propbuilder::context::{CompanyInfo, SolicitationMeta};
use hoags_tools::propbuilder::letter::cover_letter_text;
use hoags_tools::propbuilder::proposal::looks_like_sol_number;
use hoags_tools::propbuilder::templates::safe_pdf_string;

#[test]
fn test_looks_like_sol_number_positive() {
    assert!(looks_like_sol_number("12444626P0025"));
    assert!(looks_like_sol_number("SOL-2026-001"));
    assert!(looks_like_sol_number("W912DR24R0012"));
}

#[test]
fn test_looks_like_sol_number_negative() {
    assert!(!looks_like_sol_number("hello"));
    assert!(!looks_like_sol_number("12345678901234567890123456"));
}

#[test]
fn sol_number_needs_letters_and_digits() {
    assert!(!looks_like_sol_number("1234567890"));
    assert!(!looks_like_sol_number("ABCDEFGHIJ"));
    assert!(!looks_like_sol_number("W912DR24 R0012"));
    assert!(looks_like_sol_number("A1234567"));
}

#[test]
fn test_safe_pdf_string_parens() {
    let s = safe_pdf_string("Hello (world)");
    assert_eq!(s, "Hello \\(world\\)");
}

#[test]
fn test_safe_pdf_string_backslash() {
    let s = safe_pdf_string("C:\\Users\\foo");
    assert_eq!(s, "C:\\\\Users\\\\foo");
}

#[test]
fn test_safe_pdf_string_strips_non_ascii() {
    let s = safe_pdf_string("caf\u{00E9}");
    assert_eq!(s, "caf");
}

#[test]
fn test_clin_total_calc() {
    let qty = 12.0_f64;
    let up = 3500.0_f64;
    assert!((qty * up - 42000.0).abs() < 0.01);
}

use hoags_tools::propbuilder::templates::wrap_words;

#[test]
fn wrap_words_greedy() {
    assert_eq!(
        wrap_words("the quick brown fox jumps", 10),
        vec!["the quick".to_string(), "brown fox".to_string(), "jumps".to_string()]
    );
}

#[test]
fn wrap_words_long_word_alone() {
    assert_eq!(
        wrap_words("a supercalifragilistic b", 5),
        vec!["a".to_string(), "supercalifragilistic".to_string(), "b".to_string()]
    );
    assert!(wrap_words("   ", 5).is_empty());
}

#[test]
fn cover_letter_wording() {
    let company = CompanyInfo {
        name: "Hoags Inc.".into(),
        cage: "15XV5".into(),
        uei: "DUHWVUXFNPV5".into(),
        address: String::new(),
        phone: String::new(),
        email: String::new(),
    };
    let mut sol = SolicitationMeta::default();
    let w = cover_letter_text(&company, &sol, None);
    assert_eq!(w.addressee, "Contracting Officer");
    assert_eq!(w.subject, "RE: Offer in Response to Solicitation");
    assert!(w.opening.starts_with("Hoags Inc. is pleased to submit this offer in response to Solicitation for Services."));
    assert!(w.credentials.starts_with("As a verified SAM.gov vendor (CAGE: 15XV5, UEI: DUHWVUXFNPV5), Hoags Inc."));
    sol.number = "W912".into();
    sol.co_name = "Jane Roe".into();
    sol.title = "Trail Work".into();
    let w = cover_letter_text(&company, &sol, Some(""));
    assert_eq!(w.salutation, "Dear Jane Roe,");
    assert_eq!(w.subject, "RE: Offer in Response to Solicitation No. W912");
    assert!(w.opening.contains("Solicitation No. W912 for Trail Work."));
    assert_eq!(cover_letter_text(&company, &sol, Some("Bob")).addressee, "Bob");
}
