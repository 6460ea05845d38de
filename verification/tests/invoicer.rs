use hoags_tools::invoicer::generate::truncate;
use hoags_tools::invoicer::invoice::build_invoice_number;
use hoags_tools::invoicer::tracker::InvoiceStatus;

#[test]
fn test_truncate() {
    assert_eq!(truncate("hello", 10), "hello");
    assert_eq!(truncate("hello world", 5), "hello");
    let s = "abc";
    assert_eq!(truncate(s, 2), "ab");
}

#[test]
fn test_build_invoice_number() {
    assert_eq!(build_invoice_number("2026-04", 1), "HOAGS-INV-202604-001");
    assert_eq!(build_invoice_number("2026-12", 42), "HOAGS-INV-202612-042");
}

#[test]
fn invoice_number_wide_sequence() {
    assert_eq!(build_invoice_number("2027-01", 1234), "HOAGS-INV-202701-1234");
}

#[test]
fn truncate_backs_off_to_char_boundary() {
    // "é" takes two bytes: a cut at byte 2 would split it
    assert_eq!(truncate("aé", 2), "a");
    assert_eq!(truncate("aé", 3), "aé");
}

#[test]
fn status_round_trip() {
    for s in [InvoiceStatus::Draft, InvoiceStatus::Submitted, InvoiceStatus::Paid] {
        assert_eq!(InvoiceStatus::from_str(s.as_str()), s);
    }
    assert_eq!(InvoiceStatus::from_str("unknown"), InvoiceStatus::Draft);
}

use hoags_tools::invoicer::invoice::{billing_days, ContractPeriod};

fn sample_period() -> ContractPeriod {
    ContractPeriod { start: "2026-04-09".into(), end: "2027-03-31".into() }
}

#[test]
fn billing_days_partial_first_month() {
    assert_eq!(billing_days(&sample_period(), "2026-04"), Ok(Some((22, 357))));
}

#[test]
fn billing_days_full_month() {
    assert_eq!(billing_days(&sample_period(), "2026-06"), Ok(Some((30, 357))));
    assert_eq!(billing_days(&sample_period(), "2027-02"), Ok(Some((28, 357))));
}

#[test]
fn billing_days_outside_contract() {
    assert_eq!(billing_days(&sample_period(), "2025-01"), Ok(None));
    assert_eq!(billing_days(&sample_period(), "2027-04"), Ok(None));
}

#[test]
fn billing_days_errors() {
    assert_eq!(
        billing_days(&sample_period(), "202604"),
        Err("Invalid period '202604' \u{2014} expected YYYY-MM".to_string())
    );
    assert_eq!(billing_days(&sample_period(), "20x6-04"), Err("Invalid year".to_string()));
    assert_eq!(billing_days(&sample_period(), "2026-4x"), Err("Invalid month".to_string()));
    assert_eq!(billing_days(&sample_period(), "2026-13"), Err("Invalid date: 2026-13-01".to_string()));
    let bad = ContractPeriod { start: "April".into(), end: "2027-03-31".into() };
    assert!(billing_days(&bad, "2026-04").unwrap_err().starts_with("Bad contract start: "));
    let bad_end = ContractPeriod { start: "2026-04-09".into(), end: "soon".into() };
    assert!(billing_days(&bad_end, "2026-04").unwrap_err().starts_with("Bad contract end: "));
}
