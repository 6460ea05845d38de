use hoags_tools::mailcraft::draft::{compose, draft_file_name, sanitize};
use hoags_tools::mailcraft::templates::{
    amendment_ack, award_response, debrief_request, invoice_submit_from, question, quote_submit, signature,
    status_update, status_update_from, validate_gov_email, EmailDraft, Identity,
};

fn sample_draft() -> EmailDraft {
    EmailDraft {
        to: "co@agency.gov".to_string(),
        subject: "Quote Submission — Solicitation TEST001".to_string(),
        body: "Dear Jane,\n\nPlease find attached our quote.\n\nRespectfully,\nCollin".to_string(),
    }
}

#[test]
fn compose_includes_to_and_subject() {
    let d = sample_draft();
    let text = compose(&d);
    assert!(text.contains("TO:      co@agency.gov"));
    assert!(text.contains("SUBJECT: Quote Submission"));
}

#[test]
fn compose_includes_separator_line() {
    let text = compose(&sample_draft());
    assert!(text.contains("--------"));
}

#[test]
fn compose_body_is_present() {
    let text = compose(&sample_draft());
    assert!(text.contains("Dear Jane"));
}

#[test]
fn sanitize_replaces_unsafe_chars() {
    assert_eq!(sanitize("a/b\\c:d"), "a_b_c_d");
    assert_eq!(sanitize("normal"), "normal");
}

#[test]
fn save_draft_filename_format() {
    assert_eq!(draft_file_name("W9127S26QA030", "quote-submit"), "W9127S26QA030_quote-submit.txt");
    assert_eq!(draft_file_name("a b", "x?y"), "a_b_x_y.txt");
}

#[test]
fn compose_exact_layout() {
    let d = EmailDraft { to: "a".into(), subject: "b".into(), body: "c".into() };
    let expected = format!("TO:      a\nSUBJECT: b\n{}\n\nc\n", "-".repeat(72));
    assert_eq!(compose(&d), expected);
}

#[test]
fn valid_gov_email_accepted() {
    assert!(validate_gov_email("co@usace.army.mil").is_ok());
    assert!(validate_gov_email("buyer@fs.usda.gov").is_ok());
}

#[test]
fn non_gov_email_rejected() {
    let result = validate_gov_email("person@gmail.com");
    assert!(result.is_err());
    assert!(result.unwrap_err().contains(".gov or .mil"));
}

#[test]
fn empty_email_bypasses_validation() {
    assert!(validate_gov_email("").is_ok());
}

#[test]
fn email_missing_at_sign_rejected() {
    assert!(validate_gov_email("notanemail").is_err());
}

#[test]
fn email_check_ignores_case_and_quotes_address() {
    assert!(validate_gov_email("CO@AGENCY.GOV").is_ok());
    assert_eq!(
        validate_gov_email("nobody").unwrap_err(),
        "'nobody' does not look like a valid email address (missing @)"
    );
}

#[test]
fn identity_overrides_company_and_signer() {
    let id = Identity::with_overrides(&base(), Some("ACME Corp"), Some("Jane Smith"));
    assert_eq!(id.company, "ACME Corp");
    assert_eq!(id.signer, "Jane Smith");
}

#[test]
fn identity_empty_override_falls_back_to_default() {
    let id = Identity::with_overrides(&base(), Some(""), Some(""));
    assert!(!id.company.is_empty());
    assert!(!id.signer.is_empty());
}

#[test]
fn signature_block_layout() {
    let mut id = Identity::with_overrides(&base(), None, None);
    assert_eq!(
        signature(&id),
        "Respectfully,\n\nCollin Hoag\nPrincipal / Contracts Manager\nHoags Inc.\nEmail:   contracts@hoagsinc.com"
    );
    id.phone = "555".into();
    assert!(signature(&id).contains("Hoags Inc.\nPhone:   555\nEmail:"));
    let env = Identity::from_env_values(Some("X Co".into()), None, None, None, None);
    assert_eq!(env.company, "X Co");
    assert_eq!(env.signer, "Collin Hoag");
}

#[test]
fn quote_submit_subject_contains_sol() {
    let d = quote_submit(&base(), "W9127S26QA030", "Ashley Stokes", "ashley@usace.army.mil", &[], None, None);
    assert!(d.subject.contains("W9127S26QA030"));
}

#[test]
fn quote_submit_to_is_co_email() {
    let d = quote_submit(&base(), "W9127S26QA030", "Ashley Stokes", "ashley@usace.army.mil", &[], None, None);
    assert_eq!(d.to, "ashley@usace.army.mil");
}

#[test]
fn quote_submit_body_mentions_co_name() {
    let d = quote_submit(&base(), "W9127S26QA030", "Ashley Stokes", "ashley@usace.army.mil", &[], None, None);
    assert!(d.body.contains("Ashley Stokes"));
}

#[test]
fn quote_submit_custom_attachments_listed() {
    let d = quote_submit(
        &base(),
        "TEST001",
        "Jane Doe",
        "jane@agency.gov",
        &["SF1449.pdf", "price_schedule.xlsx"],
        None,
        None,
    );
    assert!(d.body.contains("SF1449.pdf"));
    assert!(d.body.contains("price_schedule.xlsx"));
}

#[test]
fn quote_submit_company_override() {
    let d = quote_submit(&base(), "TEST001", "Jane Doe", "jane@agency.gov", &[], Some("ACME Corp"), Some("Alice"));
    assert!(d.body.contains("ACME Corp"));
    assert!(d.body.contains("Alice"));
}

#[test]
fn quote_attachment_bullets() {
    let d = quote_submit(&base(), "S", "N", "e", &["a.pdf", "b.pdf"], None, None);
    assert!(d.body.contains("Attached:\n    • a.pdf\n    • b.pdf\n\nWe have reviewed"));
    let d = quote_submit(&base(), "S", "N", "e", &[], None, None);
    assert!(d.body.contains("    • Completed SF 1449 / quote form\n    • Price schedule\n"));
    assert_eq!(d.subject, "Quote Submission — Solicitation S");
}

#[test]
fn amendment_ack_subject_contains_amendment_number() {
    let d = amendment_ack(&base(), "1240BE26Q0050", 1, "", None, None);
    assert!(d.subject.contains("Amendment 1"));
    assert!(d.subject.contains("1240BE26Q0050"));
}

#[test]
fn amendment_ack_body_references_amendment() {
    let d = amendment_ack(&base(), "1240BE26Q0050", 2, "co@agency.gov", None, None);
    assert!(d.body.contains("Amendment No. 2"));
    assert!(d.body.contains("1240BE26Q0050"));
}

#[test]
fn amendment_ack_zero_to_empty_string_when_no_email() {
    let d = amendment_ack(&base(), "TESTSOL", 3, "", None, None);
    assert_eq!(d.to, "");
}

#[test]
fn debrief_request_cites_far_15506() {
    let d = debrief_request(&base(), "127EAV26Q0031", "Ellena Silva", "ellena@agency.gov", None, None);
    assert!(d.body.contains("FAR 15.506"));
    assert!(d.subject.contains("FAR 15.506"));
}

#[test]
fn debrief_request_to_is_co_email() {
    let d = debrief_request(&base(), "127EAV26Q0031", "Ellena Silva", "ellena@agency.gov", None, None);
    assert_eq!(d.to, "ellena@agency.gov");
}

#[test]
fn award_response_subject_contains_contract() {
    let d = award_response(&base(), "12444626P0028", "John Smith", "john@agency.gov", None, None);
    assert!(d.subject.contains("12444626P0028"));
}

#[test]
fn award_response_body_mentions_contract() {
    let d = award_response(&base(), "12444626P0028", "", "", None, None);
    assert!(d.body.contains("12444626P0028"));
    assert!(d.body.contains("To Whom It May Concern"));
}

#[test]
fn award_response_salutation_names_co() {
    let d = award_response(&base(), "C1", "John Smith", "", None, None);
    assert!(d.body.starts_with("Dear John Smith,\n\n"));
}

#[test]
fn question_subject_contains_sol() {
    let d = question(&base(), "W9127S26QA030", "What is the required security clearance?", "co@fs.usda.gov", None, None);
    assert!(d.subject.contains("W9127S26QA030"));
}

#[test]
fn question_body_contains_question_text() {
    let d = question(&base(), "W9127S26QA030", "What is the required security clearance?", "co@fs.usda.gov", None, None);
    assert!(d.body.contains("What is the required security clearance?"));
}

#[test]
fn question_to_is_co_email() {
    let d = question(&base(), "W9127S26QA030", "?", "co@fs.usda.gov", None, None);
    assert_eq!(d.to, "co@fs.usda.gov");
}

#[test]
fn status_update_for_a_month() {
    let id = Identity::with_overrides(&base(), None, None);
    let d = status_update_from(&id, "12444626P0028", "On track", "co@usace.army.mil", "April 2026");
    assert_eq!(d.subject, "Monthly Status Update — Contract 12444626P0028 (April 2026)");
    assert!(d.body.contains("Current Status: On track"));
    assert!(d.body.contains("reporting period: April 2026."));
}

#[test]
fn invoice_submission_with_and_without_contract() {
    let id = Identity::with_overrides(&base(), None, None);
    let d = invoice_submit_from(&id, "HOAGS-INV-001", "10645.63", Some("ABC123"), "");
    assert_eq!(d.subject, "Invoice Submission — HOAGS-INV-001 — Contract ABC123");
    assert!(d.body.contains("Invoice Amount:  $10645.63"));
    assert!(d.body.contains("Contract Number: ABC123\n"));
    let d = invoice_submit_from(&id, "HOAGS-INV-002", "100.00", None, "");
    assert!(!d.subject.contains("Contract"));
}

#[test]
fn status_update_subject_contains_contract() {
    let d = status_update(&base(), "12444626P0028", "On track", "co@usace.army.mil", None, None);
    assert!(d.subject.contains("12444626P0028"));
    assert!(d.subject.contains("Monthly Status Update"));
}

#[test]
fn status_update_body_contains_status() {
    let d = status_update(&base(), "12444626P0028", "On track", "co@usace.army.mil", None, None);
    assert!(d.body.contains("On track"));
}

#[test]
fn status_update_body_contains_contract() {
    let d = status_update(&base(), "12444626P0028", "On track", "", None, None);
    assert!(d.body.contains("12444626P0028"));
}

/// The invoice draft for an amount, written with two decimals as the
/// command line does before drafting.
fn invoice_submit(invoice_number: &str, amount: f64, contract: Option<&str>, co_email: &str) -> EmailDraft {
    let id = Identity::with_overrides(&base(), None, None);
    invoice_submit_from(&id, invoice_number, &format!("{:.2}", amount), contract, co_email)
}

#[test]
fn invoice_submit_subject_contains_invoice_number() {
    let d = invoice_submit("HOAGS-INV-001", 10645.63, Some("12444626P0028"), "finance@usace.army.mil");
    assert!(d.subject.contains("HOAGS-INV-001"));
}

#[test]
fn invoice_submit_body_contains_amount() {
    let d = invoice_submit("HOAGS-INV-001", 10645.63, None, "");
    assert!(d.body.contains("10645.63"));
}

#[test]
fn invoice_submit_body_contains_contract_when_provided() {
    let d = invoice_submit("HOAGS-INV-001", 500.0, Some("ABC123"), "");
    assert!(d.body.contains("ABC123"));
}

#[test]
fn invoice_submit_subject_no_contract_when_absent() {
    let d = invoice_submit("HOAGS-INV-002", 100.0, None, "");
    assert!(d.subject.contains("HOAGS-INV-002"));
    assert!(!d.subject.contains("Contract"));
}

/// The identity where no `HOAGS_*` variable is set.
fn base() -> Identity {
    Identity::from_env_values(None, None, None, None, None)
}
