use hoags_tools::hoags_core::bus::{consumers_after_ack, BusEvent};
use hoags_tools::hoags_core::connectors::{
    BidConnector, BusAction, ComplianceConnector, ConnectorResult, DocConnector, FinanceConnector,
    LearningConnector,
};
use hoags_tools::hoags_core::memory::{merge_source_pdfs, normalize_label};

fn event(id: i64, event_type: &str, payload: &str) -> BusEvent {
    BusEvent {
        id,
        source_tool: event_type.split('.').next().unwrap().to_string(),
        event_type: event_type.to_string(),
        payload: payload.to_string(),
        created_at: "2026-04-01T00:00:00+00:00".to_string(),
        consumed_by: String::new(),
    }
}

fn shares(actions: &[BusAction]) -> Vec<(String, String, String, String, u32)> {
    actions
        .iter()
        .filter_map(|a| match a {
            BusAction::Share { from, to, kind, content, confidence_pct } => {
                Some((from.clone(), to.clone(), kind.clone(), content.clone(), *confidence_pct))
            }
            _ => None,
        })
        .collect()
}

fn acked(actions: &[BusAction]) -> Vec<(i64, String)> {
    actions
        .iter()
        .filter_map(|a| match a {
            BusAction::Ack { event_id, consumer } => Some((*event_id, consumer.clone())),
            _ => None,
        })
        .collect()
}

#[test]
fn ack_appends_consumer() {
    assert_eq!(consumers_after_ack("", "connector_bid"), "connector_bid");
    assert_eq!(consumers_after_ack("connector_bid", "connector_doc"), "connector_bid,connector_doc");
}

#[test]
fn bid_connector_form_template_goes_to_propbuilder() {
    let bid = BidConnector;
    let mut result = ConnectorResult::default();
    let actions = bid.on_event(&event(7, "pdffill.form_detected", r#"{"template":"SF1449"}"#), &mut result);
    assert_eq!(
        shares(&actions),
        vec![("pdffill".into(), "propbuilder".into(), "form_template".into(), "SF1449".into(), 90)]
    );
    assert_eq!(acked(&actions), vec![(7, "connector_bid".to_string())]);
    assert_eq!(result.events_processed, 1);
    assert_eq!(result.knowledge_shared, 1);
    assert_eq!(bid.name(), "connector_bid");
}

#[test]
fn bid_connector_without_member_only_acks() {
    let bid = BidConnector;
    let mut result = ConnectorResult::default();
    let actions = bid.on_event(&event(3, "pdffill.form_filled", "{}"), &mut result);
    assert!(shares(&actions).is_empty());
    assert_eq!(acked(&actions).len(), 1);
    assert_eq!(result.events_processed, 1);
    assert_eq!(result.knowledge_shared, 0);
}

#[test]
fn bid_connector_ignores_other_events() {
    let bid = BidConnector;
    let mut result = ConnectorResult::default();
    let actions = bid.on_event(&event(3, "invoicer.invoice_generated", "{}"), &mut result);
    assert!(actions.is_empty());
    assert_eq!(result.events_processed, 0);
}

#[test]
fn bid_connector_finish_records_active_bids() {
    let bid = BidConnector;
    let mut result = ConnectorResult::default();
    let actions = bid.finish(2, &mut result);
    match &actions[..] {
        [BusAction::SetMemory { connector, key, value }] => {
            assert_eq!(connector, "connector_bid");
            assert_eq!(key, "active_bids");
            assert_eq!(value, "2");
        }
        other => panic!("unexpected actions {:?}", other),
    }
    assert_eq!(result.memory_updates, 1);
}

#[test]
fn finance_connector_invoice_to_receipts() {
    let fin = FinanceConnector;
    let mut result = ConnectorResult::default();
    let actions = fin.on_event(
        &event(
            1,
            "invoicer.invoice_generated",
            r#"{"total_amount": 10645.63, "contract_number": "W9127S26QA030"}"#,
        ),
        &mut result,
    );
    assert_eq!(
        shares(&actions),
        vec![(
            "invoicer".into(),
            "receipts".into(),
            "expected_payment".into(),
            "Expected payment $10645.63 for W9127S26QA030".into(),
            85
        )]
    );
    assert_eq!(result.events_processed, 1);
}

#[test]
fn finance_connector_unknown_contract() {
    let fin = FinanceConnector;
    let mut result = ConnectorResult::default();
    let actions = fin.on_event(&event(1, "invoicer.invoice_generated", r#"{"total_amount": 5}"#), &mut result);
    assert_eq!(shares(&actions)[0].3, "Expected payment $5.00 for unknown");
}

#[test]
fn finance_connector_expense_passes_payload() {
    let fin = FinanceConnector;
    let mut result = ConnectorResult::default();
    let payload = r#"{"amount": 12.5}"#;
    let actions = fin.on_event(&event(9, "receipts.expense_added", payload), &mut result);
    assert_eq!(
        shares(&actions),
        vec![("receipts".into(), "sheetwise".into(), "new_expense_data".into(), payload.into(), 70)]
    );
    let finish = fin.finish(None, &mut result);
    match &finish[..] {
        [BusAction::SetMemory { value, .. }] => assert_eq!(value, "0"),
        other => panic!("unexpected actions {:?}", other),
    }
    assert_eq!(result.memory_updates, 1);
}

#[test]
fn doc_connector_routes_pdf() {
    let doc = DocConnector;
    let mut result = ConnectorResult::default();
    let actions = doc.on_event(
        &event(4, "docconv.document_converted", r#"{"output_format":"pdf","output_path":"/tmp/a.pdf"}"#),
        &mut result,
    );
    assert_eq!(
        shares(&actions),
        vec![("docconv".into(), "pdffill".into(), "new_pdf_available".into(), "/tmp/a.pdf".into(), 80)]
    );
    let other = doc.on_event(
        &event(5, "docconv.document_converted", r#"{"output_format":"docx","output_path":"/tmp/a.docx"}"#),
        &mut result,
    );
    assert!(shares(&other).is_empty());
    assert_eq!(result.events_processed, 2);
}

#[test]
fn doc_connector_remembers_signature() {
    let doc = DocConnector;
    let mut result = ConnectorResult::default();
    let actions = doc.on_event(&event(6, "sigstamp.document_signed", r#"{"document":"bid.pdf"}"#), &mut result);
    match &actions[0] {
        BusAction::SetMemory { connector, key, value } => {
            assert_eq!(connector, "connector_doc");
            assert_eq!(key, "signed_bid.pdf");
            assert_eq!(value, "true");
        }
        other => panic!("unexpected action {:?}", other),
    }
    assert_eq!(result.memory_updates, 1);
}

#[test]
fn compliance_connector_risk_broadcast() {
    let comp = ComplianceConnector;
    let mut result = ConnectorResult::default();
    let actions = comp.on_event(
        &event(2, "clauseguard.risk_found", r#"{"risk_level":"red","clause":"52.249-8"}"#),
        &mut result,
    );
    assert!(result.knowledge_shared >= 2);
    let s = shares(&actions);
    assert_eq!(s[0].1, "mailcraft");
    assert!(s[0].3.contains("52.249-8"));
    assert_eq!(s[1], ("clauseguard".into(), "propbuilder".into(), "clause_risk".into(), "red risk: clause 52.249-8".into(), 80));
}

#[test]
fn compliance_connector_yellow_only_notes() {
    let comp = ComplianceConnector;
    let mut result = ConnectorResult::default();
    let actions = comp.on_event(&event(2, "clauseguard.risk_found", r#"{"risk_level":"yellow"}"#), &mut result);
    assert_eq!(shares(&actions).len(), 1);
    assert_eq!(shares(&actions)[0].3, "yellow risk: clause unknown");
    assert_eq!(result.knowledge_shared, 1);
}

#[test]
fn learning_connector_counts_events() {
    let learning = LearningConnector;
    let mut result = ConnectorResult::default();
    let first = learning.on_event(&event(1, "pdffill.form_filled", "{}"), None, &mut result);
    match &first[0] {
        BusAction::SetMemory { key, value, .. } => {
            assert_eq!(key, "event_count_pdffill.form_filled");
            assert_eq!(value, "1");
        }
        other => panic!("unexpected action {:?}", other),
    }
    let second = learning.on_event(&event(2, "pdffill.form_filled", "{}"), Some("1".into()), &mut result);
    match &second[0] {
        BusAction::SetMemory { value, .. } => assert_eq!(value, "2"),
        other => panic!("unexpected action {:?}", other),
    }
    let third = learning.on_event(&event(3, "invoicer.invoice_generated", "{}"), Some("junk".into()), &mut result);
    match &third[0] {
        BusAction::SetMemory { value, .. } => assert_eq!(value, "1"),
        other => panic!("unexpected action {:?}", other),
    }
    assert_eq!(result.events_processed, 3);
    let total = learning.finish(3, None);
    match &total[..] {
        [BusAction::SetMemory { key, value, .. }] => {
            assert_eq!(key, "total_events_seen");
            assert_eq!(value, "3");
        }
        other => panic!("unexpected actions {:?}", other),
    }
}

#[test]
fn memory_label_is_trimmed_and_lowered() {
    assert_eq!(normalize_label("  Contract Number "), "contract number");
}

#[test]
fn memory_sources_are_not_repeated() {
    let v = merge_source_pdfs(vec!["a.pdf".to_string()], "b.pdf");
    assert_eq!(v, vec!["a.pdf".to_string(), "b.pdf".to_string()]);
    let w = merge_source_pdfs(v.clone(), "a.pdf");
    assert_eq!(w, v);
}

#[test]
fn ack_keeps_earlier_consumers_and_names_the_new_one() {
    let list = consumers_after_ack(&consumers_after_ack("", "connector_bid"), "connector_doc");
    assert!(list.contains("connector_bid"));
    assert!(list.contains("connector_doc"));
}
