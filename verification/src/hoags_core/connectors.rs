//! The connector agents. Each one watches some kinds of bus events and turns
//! them into knowledge shared with other tools, connector memory and
//! acknowledgements. The decisions are made here, one event at a time; the
//! caller polls the bus and carries out the actions returned.
use vstd::prelude::*;
use crate::hoags_core::bus::BusEvent;
use crate::text::{chars_of, dec, dec_int, eq_str, i64_to_dec, parse_integer, parse_integer_vec, string_of, u64_to_dec};

verus! {

/// What one pass of a connector did.
#[derive(Debug)]
pub struct ConnectorResult {
    pub events_processed: usize,
    pub knowledge_shared: usize,
    pub memory_updates: usize,
}

impl Default for ConnectorResult {
    /// Nothing processed yet.
    fn default() -> (r: ConnectorResult)
        ensures
            r.events_processed == 0,
            r.knowledge_shared == 0,
            r.memory_updates == 0,
    {
        ConnectorResult { events_processed: 0, knowledge_shared: 0, memory_updates: 0 }
    }
}

/// An effect on the bus that a connector asks for.
#[derive(Debug, Clone)]
pub enum BusAction {
    /// Share knowledge from one tool to another, with a confidence in percent.
    Share { from: String, to: String, kind: String, content: String, confidence_pct: u32 },
    /// Store a connector memory entry.
    SetMemory { connector: String, key: String, value: String },
    /// Mark an event as processed by a consumer.
    Ack { event_id: i64, consumer: String },
}

/// A bus action as plain values.
pub enum ActionSpec {
    Share { from: Seq<char>, to: Seq<char>, kind: Seq<char>, content: Seq<char>, confidence_pct: nat },
    SetMemory { connector: Seq<char>, key: Seq<char>, value: Seq<char> },
    Ack { event_id: int, consumer: Seq<char> },
}

pub open spec fn action_view(a: BusAction) -> ActionSpec {
    match a {
        BusAction::Share { from, to, kind, content, confidence_pct } => ActionSpec::Share {
            from: from@,
            to: to@,
            kind: kind@,
            content: content@,
            confidence_pct: confidence_pct as nat,
        },
        BusAction::SetMemory { connector, key, value } => ActionSpec::SetMemory {
            connector: connector@,
            key: key@,
            value: value@,
        },
        BusAction::Ack { event_id, consumer } => ActionSpec::Ack {
            event_id: event_id as int,
            consumer: consumer@,
        },
    }
}

pub open spec fn actions_view(s: Seq<BusAction>) -> Seq<ActionSpec> {
    s.map_values(|a: BusAction| action_view(a))
}

pub open spec fn opt_text(o: Option<String>) -> Option<Seq<char>> {
    match o {
        Some(s) => Some(s@),
        None => None,
    }
}

/// For a JSON text `payload` holding an object, the string stored under
/// `key`; `None` where the text does not parse, is not an object, lacks the
/// key or holds something other than a string there.
pub uninterp spec fn json_string_member(payload: Seq<char>, key: Seq<char>) -> Option<Seq<char>>;

/// For a JSON text `payload` holding an object, the number stored under
/// `key` written with two decimals; `None` where there is no number there.
pub uninterp spec fn json_amount_member(payload: Seq<char>, key: Seq<char>) -> Option<Seq<char>>;

/// Parses `payload` with `serde_json` and reads the string member `key`.
#[verifier::external_body]
fn json_text_member(payload: &str, key: &str) -> (r: Option<String>)
    ensures
        opt_text(r) == json_string_member(payload@, key@),
{
    match serde_json::from_str::<serde_json::Value>(payload) {
        Ok(v) => match v.get(key) {
            Some(serde_json::Value::String(s)) => Some(s.clone()),
            _ => None,
        },
        Err(_) => None,
    }
}

/// Parses `payload` with `serde_json` and writes the number member `key`
/// with two decimals.
#[verifier::external_body]
fn json_amount_text(payload: &str, key: &str) -> (r: Option<String>)
    ensures
        opt_text(r) == json_amount_member(payload@, key@),
{
    match serde_json::from_str::<serde_json::Value>(payload) {
        Ok(v) => match v.get(key) {
            Some(serde_json::Value::Number(n)) => match n.as_f64() {
                Some(a) => Some(format!("{:.2}", a)),
                None => None,
            },
            _ => None,
        },
        Err(_) => None,
    }
}

fn share(from: &str, to: &str, kind: &str, content: String, pct: u32) -> (r: BusAction)
    ensures
        action_view(r) == (ActionSpec::Share {
            from: from@,
            to: to@,
            kind: kind@,
            content: content@,
            confidence_pct: pct as nat,
        }),
{
    BusAction::Share {
        from: from.to_owned(),
        to: to.to_owned(),
        kind: kind.to_owned(),
        content,
        confidence_pct: pct,
    }
}

fn ack(event_id: i64, consumer: &str) -> (r: BusAction)
    ensures
        action_view(r) == (ActionSpec::Ack { event_id: event_id as int, consumer: consumer@ }),
{
    BusAction::Ack { event_id, consumer: consumer.to_owned() }
}

fn set_memory(connector: &str, key: String, value: String) -> (r: BusAction)
    ensures
        action_view(r) == (ActionSpec::SetMemory { connector: connector@, key: key@, value: value@ }),
{
    BusAction::SetMemory { connector: connector.to_owned(), key, value }
}

fn is_type(event: &BusEvent, t: &str) -> (r: bool)
    ensures
        r == (event.event_type@ == t@),
{
    eq_str(&chars_of(event.event_type.as_str()), t)
}

/// Room in the counters for one more event.
pub open spec fn has_room(r: ConnectorResult) -> bool {
    &&& r.events_processed < usize::MAX
    &&& r.knowledge_shared + 2 <= usize::MAX
    &&& r.memory_updates < usize::MAX
}

/// The counters after one event that shared `shared` pieces of knowledge and
/// stored `stored` memory entries.
pub open spec fn counted(before: ConnectorResult, after: ConnectorResult, shared: nat, stored: nat) -> bool {
    &&& after.events_processed == before.events_processed + 1
    &&& after.knowledge_shared == before.knowledge_shared + shared
    &&& after.memory_updates == before.memory_updates + stored
}

/// The number of knowledge shares among `s`.
pub open spec fn shares_in(s: Seq<ActionSpec>) -> nat
    decreases s.len(),
{
    if s.len() == 0 {
        0
    } else {
        shares_in(s.drop_last()) + if s.last() is Share {
            1nat
        } else {
            0
        }
    }
}

/// A share if `value` is present, then the acknowledgement.
pub open spec fn share_then_ack(
    value: Option<Seq<char>>,
    from: Seq<char>,
    to: Seq<char>,
    kind: Seq<char>,
    pct: nat,
    ack: ActionSpec,
) -> Seq<ActionSpec> {
    match value {
        Some(v) => seq![ActionSpec::Share { from, to, kind, content: v, confidence_pct: pct }, ack],
        None => seq![ack],
    }
}

// ---------------------------------------------------------------------------
// Bid pipeline: form detection, filling and proposal generation.

pub struct BidConnector;

/// For an event type the bid connector watches: the tool the knowledge comes
/// from, the tool it goes to, its kind, the payload member carried, and the
/// confidence in percent.
pub open spec fn bid_route(event_type: Seq<char>) -> Option<(Seq<char>, Seq<char>, Seq<char>, Seq<char>, nat)> {
    if event_type == "pdffill.form_detected"@ {
        Some(("pdffill"@, "propbuilder"@, "form_template"@, "template"@, 90))
    } else if event_type == "pdffill.form_filled"@ {
        Some(("pdffill"@, "mailcraft"@, "ready_to_submit"@, "solicitation"@, 95))
    } else if event_type == "propbuilder.proposal_generated"@ {
        Some(("propbuilder"@, "sigstamp"@, "needs_signature"@, "output_path"@, 90))
    } else {
        None
    }
}

/// What the bid connector does with `event`.
pub open spec fn bid_actions(event_type: Seq<char>, payload: Seq<char>, id: int) -> Seq<ActionSpec> {
    match bid_route(event_type) {
        Some((from, to, kind, member, pct)) => share_then_ack(
            json_string_member(payload, member),
            from,
            to,
            kind,
            pct,
            ActionSpec::Ack { event_id: id, consumer: "connector_bid"@ },
        ),
        None => Seq::empty(),
    }
}

impl BidConnector {
    pub fn name(&self) -> (r: &'static str)
        ensures
            r@ == "connector_bid"@,
    {
        "connector_bid"
    }

    /// The event types watched, in the order they are handled.
    pub fn watched(&self) -> (r: Vec<&'static str>)
        ensures
            r@.len() == 3,
            r@[0]@ == "pdffill.form_detected"@,
            r@[1]@ == "pdffill.form_filled"@,
            r@[2]@ == "propbuilder.proposal_generated"@,
    {
        let mut v: Vec<&'static str> = Vec::new();
        v.push("pdffill.form_detected");
        v.push("pdffill.form_filled");
        v.push("propbuilder.proposal_generated");
        v
    }

    /// Handles one pending event: passes the detected template, the filled
    /// solicitation or the generated proposal's path on to the tool that
    /// needs it, and acknowledges the event. Events of other types are left
    /// alone.
    pub fn on_event(&self, event: &BusEvent, result: &mut ConnectorResult) -> (r: Vec<BusAction>)
        requires
            has_room(*old(result)),
        ensures
            actions_view(r@) == bid_actions(event.event_type@, event.payload@, event.id as int),
            bid_route(event.event_type@) is Some ==> counted(
                *old(result),
                *final(result),
                shares_in(actions_view(r@)),
                0,
            ),
            bid_route(event.event_type@) is None ==> *final(result) == *old(result),
    {
        let mut out: Vec<BusAction> = Vec::new();
        let (from, to, kind, member, pct): (&str, &str, &str, &str, u32) = if is_type(
            event,
            "pdffill.form_detected",
        ) {
            ("pdffill", "propbuilder", "form_template", "template", 90)
        } else if is_type(event, "pdffill.form_filled") {
            ("pdffill", "mailcraft", "ready_to_submit", "solicitation", 95)
        } else if is_type(event, "propbuilder.proposal_generated") {
            ("propbuilder", "sigstamp", "needs_signature", "output_path", 90)
        } else {
            assert(actions_view(out@) =~= Seq::<ActionSpec>::empty());
            return out;
        };
        let value = json_text_member(event.payload.as_str(), member);
        match value {
            Some(v) => {
                out.push(share(from, to, kind, v, pct));
                result.knowledge_shared = result.knowledge_shared + 1;
            },
            None => {},
        }
        out.push(ack(event.id, "connector_bid"));
        result.events_processed = result.events_processed + 1;
        proof {
            let ghost s = actions_view(out@);
            assert(s =~= bid_actions(event.event_type@, event.payload@, event.id as int));
            reveal_with_fuel(shares_in, 3);
        }
        out
    }

    /// Ends a pass: records how many filled forms are still pending as the
    /// number of active bids.
    pub fn finish(&self, filled_pending: u64, result: &mut ConnectorResult) -> (r: Vec<BusAction>)
        requires
            old(result).memory_updates < usize::MAX,
        ensures
            actions_view(r@) == seq![
                ActionSpec::SetMemory {
                    connector: "connector_bid"@,
                    key: "active_bids"@,
                    value: dec(filled_pending as nat),
                },
            ],
            final(result).memory_updates == old(result).memory_updates + 1,
            final(result).events_processed == old(result).events_processed,
            final(result).knowledge_shared == old(result).knowledge_shared,
    {
        let mut out: Vec<BusAction> = Vec::new();
        let n = string_of(&u64_to_dec(filled_pending));
        out.push(set_memory("connector_bid", "active_bids".to_owned(), n));
        result.memory_updates = result.memory_updates + 1;
        proof {
            assert(actions_view(out@) =~= seq![
                ActionSpec::SetMemory {
                    connector: "connector_bid"@,
                    key: "active_bids"@,
                    value: dec(filled_pending as nat),
                },
            ]);
        }
        out
    }
}

// ---------------------------------------------------------------------------
// Finance: invoices and expenses.

pub struct FinanceConnector;

/// The knowledge text about an expected payment.
pub open spec fn expected_payment_text(amount: Seq<char>, contract: Seq<char>) -> Seq<char> {
    "Expected payment $"@ + amount + " for "@ + contract
}

/// What the finance connector does with `event`.
pub open spec fn finance_actions(event_type: Seq<char>, payload: Seq<char>, id: int) -> Seq<ActionSpec> {
    let done = ActionSpec::Ack { event_id: id, consumer: "connector_finance"@ };
    if event_type == "invoicer.invoice_generated"@ {
        let contract = match json_string_member(payload, "contract_number"@) {
            Some(c) => c,
            None => "unknown"@,
        };
        match json_amount_member(payload, "total_amount"@) {
            Some(a) => seq![
                ActionSpec::Share {
                    from: "invoicer"@,
                    to: "receipts"@,
                    kind: "expected_payment"@,
                    content: expected_payment_text(a, contract),
                    confidence_pct: 85,
                },
                done,
            ],
            None => seq![done],
        }
    } else if event_type == "receipts.expense_added"@ {
        seq![
            ActionSpec::Share {
                from: "receipts"@,
                to: "sheetwise"@,
                kind: "new_expense_data"@,
                content: payload,
                confidence_pct: 70,
            },
            done,
        ]
    } else {
        Seq::empty()
    }
}

pub open spec fn finance_watches(event_type: Seq<char>) -> bool {
    event_type == "invoicer.invoice_generated"@ || event_type == "receipts.expense_added"@
}

impl FinanceConnector {
    pub fn name(&self) -> (r: &'static str)
        ensures
            r@ == "connector_finance"@,
    {
        "connector_finance"
    }

    /// The event types watched, in the order they are handled.
    pub fn watched(&self) -> (r: Vec<&'static str>)
        ensures
            r@.len() == 2,
            r@[0]@ == "invoicer.invoice_generated"@,
            r@[1]@ == "receipts.expense_added"@,
    {
        let mut v: Vec<&'static str> = Vec::new();
        v.push("invoicer.invoice_generated");
        v.push("receipts.expense_added");
        v
    }

    /// Handles one pending event: an invoice tells receipts which payment to
    /// expect, an expense is passed on to the spreadsheet tool; the event is
    /// acknowledged. Events of other types are left alone.
    pub fn on_event(&self, event: &BusEvent, result: &mut ConnectorResult) -> (r: Vec<BusAction>)
        requires
            has_room(*old(result)),
        ensures
            actions_view(r@) == finance_actions(event.event_type@, event.payload@, event.id as int),
            finance_watches(event.event_type@) ==> counted(
                *old(result),
                *final(result),
                shares_in(actions_view(r@)),
                0,
            ),
            !finance_watches(event.event_type@) ==> *final(result) == *old(result),
    {
        let mut out: Vec<BusAction> = Vec::new();
        if is_type(event, "invoicer.invoice_generated") {
            match json_amount_text(event.payload.as_str(), "total_amount") {
                Some(a) => {
                    let contract = match json_text_member(event.payload.as_str(), "contract_number") {
                        Some(c) => c,
                        None => "unknown".to_owned(),
                    };
                    let mut text = "Expected payment $".to_owned();
                    text.append(a.as_str());
                    text.append(" for ");
                    text.append(contract.as_str());
                    out.push(share("invoicer", "receipts", "expected_payment", text, 85));
                    result.knowledge_shared = result.knowledge_shared + 1;
                },
                None => {},
            }
        } else if is_type(event, "receipts.expense_added") {
            out.push(
                share("receipts", "sheetwise", "new_expense_data", event.payload.clone(), 70),
            );
            result.knowledge_shared = result.knowledge_shared + 1;
        } else {
            assert(actions_view(out@) =~= Seq::<ActionSpec>::empty());
            return out;
        }
        out.push(ack(event.id, "connector_finance"));
        result.events_processed = result.events_processed + 1;
        proof {
            assert(actions_view(out@) =~= finance_actions(
                event.event_type@,
                event.payload@,
                event.id as int,
            ));
            reveal_with_fuel(shares_in, 3);
        }
        out
    }

    /// Ends a pass: keeps the running invoiced total, `"0"` where none is
    /// stored yet.
    pub fn finish(&self, invoiced: Option<String>, result: &mut ConnectorResult) -> (r: Vec<BusAction>)
        requires
            old(result).memory_updates < usize::MAX,
        ensures
            actions_view(r@) == seq![
                ActionSpec::SetMemory {
                    connector: "connector_finance"@,
                    key: "total_invoiced"@,
                    value: match opt_text(invoiced) {
                        Some(v) => v,
                        None => "0"@,
                    },
                },
            ],
            final(result).memory_updates == old(result).memory_updates + 1,
            final(result).events_processed == old(result).events_processed,
            final(result).knowledge_shared == old(result).knowledge_shared,
    {
        let mut out: Vec<BusAction> = Vec::new();
        let v = match invoiced {
            Some(v) => v,
            None => "0".to_owned(),
        };
        out.push(set_memory("connector_finance", "total_invoiced".to_owned(), v));
        result.memory_updates = result.memory_updates + 1;
        proof {
            assert(actions_view(out@) =~= seq![
                ActionSpec::SetMemory {
                    connector: "connector_finance"@,
                    key: "total_invoiced"@,
                    value: match opt_text(invoiced) {
                        Some(v) => v,
                        None => "0"@,
                    },
                },
            ]);
        }
        out
    }
}

// ---------------------------------------------------------------------------
// Documents: conversions and signatures.

pub struct DocConnector;

/// What the document connector does with `event`.
pub open spec fn doc_actions(event_type: Seq<char>, payload: Seq<char>, id: int) -> Seq<ActionSpec> {
    let done = ActionSpec::Ack { event_id: id, consumer: "connector_doc"@ };
    if event_type == "docconv.document_converted"@ {
        if json_string_member(payload, "output_format"@) == Some("pdf"@) {
            share_then_ack(
                json_string_member(payload, "output_path"@),
                "docconv"@,
                "pdffill"@,
                "new_pdf_available"@,
                80,
                done,
            )
        } else {
            seq![done]
        }
    } else if event_type == "sigstamp.document_signed"@ {
        let doc = match json_string_member(payload, "document"@) {
            Some(d) => d,
            None => "unknown"@,
        };
        seq![
            ActionSpec::SetMemory {
                connector: "connector_doc"@,
                key: "signed_"@ + doc,
                value: "true"@,
            },
            done,
        ]
    } else {
        Seq::empty()
    }
}

impl DocConnector {
    pub fn name(&self) -> (r: &'static str)
        ensures
            r@ == "connector_doc"@,
    {
        "connector_doc"
    }

    /// The event types watched, in the order they are handled.
    pub fn watched(&self) -> (r: Vec<&'static str>)
        ensures
            r@.len() == 2,
            r@[0]@ == "docconv.document_converted"@,
            r@[1]@ == "sigstamp.document_signed"@,
    {
        let mut v: Vec<&'static str> = Vec::new();
        v.push("docconv.document_converted");
        v.push("sigstamp.document_signed");
        v
    }

    /// Handles one pending event: a conversion to PDF tells the form filler
    /// where the new PDF is, a signature is remembered; the event is
    /// acknowledged. Events of other types are left alone.
    pub fn on_event(&self, event: &BusEvent, result: &mut ConnectorResult) -> (r: Vec<BusAction>)
        requires
            has_room(*old(result)),
        ensures
            actions_view(r@) == doc_actions(event.event_type@, event.payload@, event.id as int),
            event.event_type@ == "docconv.document_converted"@ ==> counted(
                *old(result),
                *final(result),
                shares_in(actions_view(r@)),
                0,
            ),
            event.event_type@ == "sigstamp.document_signed"@ ==> counted(*old(result), *final(result), 0, 1),
            event.event_type@ != "docconv.document_converted"@ && event.event_type@
                != "sigstamp.document_signed"@ ==> *final(result) == *old(result),
    {
        proof {
            reveal_strlit("docconv.document_converted");
            reveal_strlit("sigstamp.document_signed");
            assert("docconv.document_converted"@.len() != "sigstamp.document_signed"@.len());
        }
        let mut out: Vec<BusAction> = Vec::new();
        if is_type(event, "docconv.document_converted") {
            let fmt = json_text_member(event.payload.as_str(), "output_format");
            let is_pdf = match &fmt {
                Some(f) => eq_str(&chars_of(f.as_str()), "pdf"),
                None => false,
            };
            if is_pdf {
                match json_text_member(event.payload.as_str(), "output_path") {
                    Some(p) => {
                        out.push(share("docconv", "pdffill", "new_pdf_available", p, 80));
                        result.knowledge_shared = result.knowledge_shared + 1;
                    },
                    None => {},
                }
            }
            proof {
                assert(is_pdf == (json_string_member(event.payload@, "output_format"@) == Some(
                    "pdf"@,
                )));
            }
        } else if is_type(event, "sigstamp.document_signed") {
            let doc = match json_text_member(event.payload.as_str(), "document") {
                Some(d) => d,
                None => "unknown".to_owned(),
            };
            let mut key = "signed_".to_owned();
            key.append(doc.as_str());
            out.push(set_memory("connector_doc", key, "true".to_owned()));
            result.memory_updates = result.memory_updates + 1;
        } else {
            assert(actions_view(out@) =~= Seq::<ActionSpec>::empty());
            return out;
        }
        out.push(ack(event.id, "connector_doc"));
        result.events_processed = result.events_processed + 1;
        proof {
            assert(actions_view(out@) =~= doc_actions(
                event.event_type@,
                event.payload@,
                event.id as int,
            ));
            reveal_with_fuel(shares_in, 3);
        }
        out
    }
}

// ---------------------------------------------------------------------------
// Compliance: risky clauses.

pub struct ComplianceConnector;

/// The alert sent to the mail tool about a high-risk clause.
pub open spec fn risk_alert_text(clause: Seq<char>) -> Seq<char> {
    "HIGH RISK clause "@ + clause + " detected \u{2014} consider asking CO for clarification"@
}

/// The note sent to the proposal tool about any risky clause.
pub open spec fn clause_risk_text(level: Seq<char>, clause: Seq<char>) -> Seq<char> {
    level + " risk: clause "@ + clause
}

/// What the compliance connector does with `event`.
pub open spec fn compliance_actions(event_type: Seq<char>, payload: Seq<char>, id: int) -> Seq<ActionSpec> {
    if event_type == "clauseguard.risk_found"@ {
        let level = match json_string_member(payload, "risk_level"@) {
            Some(l) => l,
            None => "unknown"@,
        };
        let clause = match json_string_member(payload, "clause"@) {
            Some(c) => c,
            None => "unknown"@,
        };
        let note = ActionSpec::Share {
            from: "clauseguard"@,
            to: "propbuilder"@,
            kind: "clause_risk"@,
            content: clause_risk_text(level, clause),
            confidence_pct: 80,
        };
        let done = ActionSpec::Ack { event_id: id, consumer: "connector_compliance"@ };
        if level == "red"@ {
            seq![
                ActionSpec::Share {
                    from: "clauseguard"@,
                    to: "mailcraft"@,
                    kind: "risk_alert"@,
                    content: risk_alert_text(clause),
                    confidence_pct: 95,
                },
                note,
                done,
            ]
        } else {
            seq![note, done]
        }
    } else {
        Seq::empty()
    }
}

impl ComplianceConnector {
    pub fn name(&self) -> (r: &'static str)
        ensures
            r@ == "connector_compliance"@,
    {
        "connector_compliance"
    }

    /// The event type watched.
    pub fn watched(&self) -> (r: Vec<&'static str>)
        ensures
            r@.len() == 1,
            r@[0]@ == "clauseguard.risk_found"@,
    {
        let mut v: Vec<&'static str> = Vec::new();
        v.push("clauseguard.risk_found");
        v
    }

    /// Handles one pending risk: a red one alerts the mail tool, every one is
    /// noted for the proposal tool; the event is acknowledged. Events of other
    /// types are left alone.
    pub fn on_event(&self, event: &BusEvent, result: &mut ConnectorResult) -> (r: Vec<BusAction>)
        requires
            has_room(*old(result)),
        ensures
            actions_view(r@) == compliance_actions(event.event_type@, event.payload@, event.id as int),
            event.event_type@ == "clauseguard.risk_found"@ ==> counted(
                *old(result),
                *final(result),
                shares_in(actions_view(r@)),
                0,
            ),
            event.event_type@ != "clauseguard.risk_found"@ ==> *final(result) == *old(result),
    {
        let mut out: Vec<BusAction> = Vec::new();
        if !is_type(event, "clauseguard.risk_found") {
            assert(actions_view(out@) =~= Seq::<ActionSpec>::empty());
            return out;
        }
        let level = match json_text_member(event.payload.as_str(), "risk_level") {
            Some(l) => l,
            None => "unknown".to_owned(),
        };
        let clause = match json_text_member(event.payload.as_str(), "clause") {
            Some(c) => c,
            None => "unknown".to_owned(),
        };
        if eq_str(&chars_of(level.as_str()), "red") {
            let mut msg = "HIGH RISK clause ".to_owned();
            msg.append(clause.as_str());
            msg.append(" detected \u{2014} consider asking CO for clarification");
            out.push(share("clauseguard", "mailcraft", "risk_alert", msg, 95));
            result.knowledge_shared = result.knowledge_shared + 1;
        }
        let mut note = level.clone();
        note.append(" risk: clause ");
        note.append(clause.as_str());
        out.push(share("clauseguard", "propbuilder", "clause_risk", note, 80));
        result.knowledge_shared = result.knowledge_shared + 1;
        out.push(ack(event.id, "connector_compliance"));
        result.events_processed = result.events_processed + 1;
        proof {
            assert(actions_view(out@) =~= compliance_actions(
                event.event_type@,
                event.payload@,
                event.id as int,
            ));
            reveal_with_fuel(shares_in, 4);
        }
        out
    }
}

// ---------------------------------------------------------------------------
// Learning: counts of every kind of event.

pub struct LearningConnector;

/// A stored count as `str::parse::<i64>` reads it, 0 where absent or not a
/// number.
pub open spec fn stored_count(v: Option<Seq<char>>) -> int {
    match v {
        Some(s) => match parse_integer(s, i64::MIN as int, i64::MAX as int) {
            Ok(n) => n,
            Err(_) => 0,
        },
        None => 0,
    }
}

fn read_count(v: &Option<String>) -> (r: i64)
    ensures
        r == stored_count(opt_text(*v)),
{
    match v {
        Some(s) => match parse_integer_vec(&chars_of(s.as_str()), i64::MIN, i64::MAX) {
            Ok(n) => n,
            Err(_) => 0,
        },
        None => 0,
    }
}

/// What the learning connector does with `event`, given the count stored
/// for its type.
pub open spec fn learning_actions(event_type: Seq<char>, id: int, stored: Option<Seq<char>>) -> Seq<ActionSpec> {
    seq![
        ActionSpec::SetMemory {
            connector: "connector_learning"@,
            key: "event_count_"@ + event_type,
            value: dec_int(stored_count(stored) + 1),
        },
        ActionSpec::Ack { event_id: id, consumer: "connector_learning"@ },
    ]
}

impl LearningConnector {
    pub fn name(&self) -> (r: &'static str)
        ensures
            r@ == "connector_learning"@,
    {
        "connector_learning"
    }

    /// The memory key under which events of `event_type` are counted.
    pub fn count_key(&self, event_type: &str) -> (r: String)
        ensures
            r@ == "event_count_"@ + event_type@,
    {
        let mut k = "event_count_".to_owned();
        k.append(event_type);
        k
    }

    /// Handles one pending event of any type: increments the count stored
    /// for its type (`stored`, read under `count_key`) and acknowledges it.
    pub fn on_event(&self, event: &BusEvent, stored: Option<String>, result: &mut ConnectorResult) -> (r: Vec<
        BusAction,
    >)
        requires
            has_room(*old(result)),
            stored_count(opt_text(stored)) < i64::MAX,
        ensures
            actions_view(r@) == learning_actions(event.event_type@, event.id as int, opt_text(stored)),
            counted(*old(result), *final(result), 0, 1),
    {
        let mut out: Vec<BusAction> = Vec::new();
        let n = read_count(&stored);
        let v = string_of(&i64_to_dec(n + 1));
        out.push(set_memory("connector_learning", self.count_key(event.event_type.as_str()), v));
        out.push(ack(event.id, "connector_learning"));
        result.memory_updates = result.memory_updates + 1;
        result.events_processed = result.events_processed + 1;
        proof {
            assert(actions_view(out@) =~= learning_actions(
                event.event_type@,
                event.id as int,
                opt_text(stored),
            ));
        }
        out
    }

    /// Ends a pass that saw `seen` events: adds them to the stored total.
    /// The counters are left as they are.
    pub fn finish(&self, seen: u32, stored_total: Option<String>) -> (r: Vec<BusAction>)
        requires
            stored_count(opt_text(stored_total)) + seen <= i64::MAX,
        ensures
            actions_view(r@) == seq![
                ActionSpec::SetMemory {
                    connector: "connector_learning"@,
                    key: "total_events_seen"@,
                    value: dec_int(stored_count(opt_text(stored_total)) + seen),
                },
            ],
    {
        let mut out: Vec<BusAction> = Vec::new();
        let n = read_count(&stored_total);
        let v = string_of(&i64_to_dec(n + seen as i64));
        out.push(set_memory("connector_learning", "total_events_seen".to_owned(), v));
        proof {
            assert(actions_view(out@) =~= seq![
                ActionSpec::SetMemory {
                    connector: "connector_learning"@,
                    key: "total_events_seen"@,
                    value: dec_int(stored_count(opt_text(stored_total)) + seen),
                },
            ]);
        }
        out
    }
}

} // verus!
