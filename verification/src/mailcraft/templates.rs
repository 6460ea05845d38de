//! E-mail templates for contracting correspondence, the sender identity they
//! are signed with, and the check of government e-mail addresses.
use vstd::prelude::*;
use crate::text::{chars_of, ends_with, find_char, split_once, string_of, unicode_lower, to_lowercase, all_ascii, ascii_lower};

verus! {

/// An e-mail draft: recipient, subject and plain-text body.
#[derive(Debug, Clone)]
pub struct EmailDraft {
    pub to: String,
    pub subject: String,
    pub body: String,
}

/// The company and signer an e-mail is sent on behalf of.
#[derive(Debug, Clone)]
pub struct Identity {
    pub company: String,
    pub signer: String,
    pub title: String,
    pub phone: String,
    pub email: String,
}

pub open spec fn default_company() -> Seq<char> {
    "Hoags Inc."@
}

pub open spec fn default_signer() -> Seq<char> {
    "Collin Hoag"@
}

pub open spec fn default_title() -> Seq<char> {
    "Principal / Contracts Manager"@
}

pub open spec fn default_email() -> Seq<char> {
    "contracts@hoagsinc.com"@
}

pub open spec fn or_default(v: Option<String>, d: Seq<char>) -> Seq<char> {
    match v {
        Some(s) => s@,
        None => d,
    }
}

/// An override applies only where it is given and not empty.
pub open spec fn overridden(base: Seq<char>, o: Option<&str>) -> Seq<char> {
    match o {
        Some(c) => if c@.len() > 0 {
            c@
        } else {
            base
        },
        None => base,
    }
}

impl Identity {
    /// The identity named by the environment variables `HOAGS_COMPANY`,
    /// `HOAGS_SIGNER`, `HOAGS_TITLE`, `HOAGS_PHONE` and `HOAGS_EMAIL` (each
    /// `None` where unset), each falling back to its default.
    pub fn from_env_values(
        company: Option<String>,
        signer: Option<String>,
        title: Option<String>,
        phone: Option<String>,
        email: Option<String>,
    ) -> (r: Identity)
        ensures
            r.company@ == or_default(company, default_company()),
            r.signer@ == or_default(signer, default_signer()),
            r.title@ == or_default(title, default_title()),
            r.phone@ == or_default(phone, Seq::<char>::empty()),
            r.email@ == or_default(email, default_email()),
    {
        Identity {
            company: match company {
                Some(s) => s,
                None => "Hoags Inc.".to_owned(),
            },
            signer: match signer {
                Some(s) => s,
                None => "Collin Hoag".to_owned(),
            },
            title: match title {
                Some(s) => s,
                None => "Principal / Contracts Manager".to_owned(),
            },
            phone: match phone {
                Some(s) => s,
                None => String::new(),
            },
            email: match email {
                Some(s) => s,
                None => "contracts@hoagsinc.com".to_owned(),
            },
        }
    }

    /// `base` with the company and signer replaced by non-empty overrides.
    pub fn with_overrides(base: &Identity, company: Option<&str>, signer: Option<&str>) -> (r: Identity)
        ensures
            overrides_of(r, *base, company, signer),
    {
        let mut id = Identity {
            company: base.company.clone(),
            signer: base.signer.clone(),
            title: base.title.clone(),
            phone: base.phone.clone(),
            email: base.email.clone(),
        };
        if let Some(c) = company {
            if !c.is_empty() {
                id.company = c.to_owned();
            }
        }
        if let Some(s) = signer {
            if !s.is_empty() {
                id.signer = s.to_owned();
            }
        }
        id
    }
}

/// `id` is `base` with the company and signer overridden.
pub open spec fn overrides_of(id: Identity, base: Identity, company: Option<&str>, signer: Option<&str>) -> bool {
    &&& id.company@ == overridden(base.company@, company)
    &&& id.signer@ == overridden(base.signer@, signer)
    &&& id.title@ == base.title@
    &&& id.phone@ == base.phone@
    &&& id.email@ == base.email@
}

/// The closing signature block of an identity.
pub open spec fn signature_text(id: Identity) -> Seq<char> {
    let phone_line = if id.phone@.len() == 0 {
        Seq::empty()
    } else {
        "Phone:   "@ + id.phone@ + "\n"@
    };
    "Respectfully,\n\n"@ + id.signer@ + "\n"@ + id.title@ + "\n"@ + id.company@ + "\n"@ + phone_line
        + "Email:   "@ + id.email@
}

/// The closing signature block: signer, title, company, phone where there
/// is one, and e-mail.
pub fn signature(id: &Identity) -> (r: String)
    ensures
        r@ == signature_text(*id),
{
    let mut s = "Respectfully,\n\n".to_owned();
    s.append(id.signer.as_str());
    s.append("\n");
    s.append(id.title.as_str());
    s.append("\n");
    s.append(id.company.as_str());
    s.append("\n");
    if !id.phone.as_str().is_empty() {
        s.append("Phone:   ");
        s.append(id.phone.as_str());
        s.append("\n");
    }
    s.append("Email:   ");
    s.append(id.email.as_str());
    s
}

// ---------------------------------------------------------------------------
// E-mail validation
// ---------------------------------------------------------------------------

/// Why an address was refused as a government one.
#[derive(Debug, Clone, Copy, PartialEq, Eq, Structural)]
pub enum EmailError {
    /// The address has no `@`.
    MissingAt,
    /// The domain ends neither in `.gov` nor in `.mil`.
    NotGovernment,
}

pub open spec fn email_error_message(email: Seq<char>, e: EmailError) -> Seq<char> {
    match e {
        EmailError::MissingAt => "'"@ + email + "' does not look like a valid email address (missing @)"@,
        EmailError::NotGovernment => "'"@ + email
            + "' does not appear to be a .gov or .mil address. Federal CO emails must end in .gov or .mil."@,
    }
}

/// The verdict on an address whose lowercase form is `lowered`: the part
/// after its first `@` must end in `.gov` or `.mil`.
pub open spec fn gov_check(lowered: Seq<char>) -> Result<(), EmailError> {
    match split_once(lowered, '@') {
        None => Err(EmailError::MissingAt),
        Some((_, domain)) => if ends_with(domain, ".gov"@) || ends_with(domain, ".mil"@) {
            Ok(())
        } else {
            Err(EmailError::NotGovernment)
        },
    }
}

/// The rest of `validate_gov_email` once the address is lowercased.
pub fn validate_lowercase_email(email: &str, lowered: &str) -> (r: Result<(), String>)
    ensures
        email@.len() == 0 ==> r is Ok,
        email@.len() > 0 ==> match gov_check(lowered@) {
            Ok(_) => r is Ok,
            Err(e) => r matches Err(m) && m@ == email_error_message(email@, e),
        },
{
    if email.is_empty() {
        return Ok(());
    }
    let v = chars_of(lowered);
    match crate::text::split_once_vec(&v, '@') {
        None => {
            let mut m = "'".to_owned();
            m.append(email);
            m.append("' does not look like a valid email address (missing @)");
            Err(m)
        },
        Some((_, domain)) => {
            if crate::text::ends_with_str(&domain, ".gov") || crate::text::ends_with_str(&domain, ".mil") {
                Ok(())
            } else {
                let mut m = "'".to_owned();
                m.append(email);
                m.append("' does not appear to be a .gov or .mil address. Federal CO emails must end in .gov or .mil.");
                Err(m)
            }
        },
    }
}

/// Checks that an address looks like a `.gov` or `.mil` one, ignoring case;
/// an empty address passes (the address is optional for some drafts).
pub fn validate_gov_email(email: &str) -> (r: Result<(), String>)
    ensures
        email@.len() == 0 ==> r is Ok,
        email@.len() > 0 ==> match gov_check(unicode_lower(email@)) {
            Ok(_) => r is Ok,
            Err(e) => r matches Err(m) && m@ == email_error_message(email@, e),
        },
        email@.len() > 0 && all_ascii(email@) ==> match gov_check(ascii_lower(email@)) {
            Ok(_) => r is Ok,
            Err(e) => r matches Err(m) && m@ == email_error_message(email@, e),
        },
{
    let lowered = to_lowercase(email);
    validate_lowercase_email(email, lowered.as_str())
}

// ---------------------------------------------------------------------------
// Template bodies
// ---------------------------------------------------------------------------

/// Body of the quote e-mail.
pub open spec fn quote_body(co_name: Seq<char>, sol: Seq<char>, company: Seq<char>, att_list: Seq<char>, sig: Seq<char>) -> Seq<char> {
    "Dear "@ + co_name + ",\n\nPlease find attached our firm's quote in response to Solicitation "@ + sol + ".\n"@ + company + " is pleased to submit the following in accordance with the\nrequirements set forth in the solicitation documents.\n\nAttached:\n"@ + att_list + "\n\nWe have reviewed all solicitation documents, amendments (if any), and\nperformance work statements in full. Our pricing reflects the complete\nscope of work and all applicable terms and conditions.\n\nShould you require clarification or additional information, please do not\nhesitate to contact us. We look forward to the opportunity to support your\nmission.\n\n"@ + sig
}

fn quote_body_text(co_name: &str, sol: &str, company: &str, att_list: &str, sig: &str) -> (r: String)
    ensures
        r@ == quote_body(co_name@, sol@, company@, att_list@, sig@),
{
    let mut s = "Dear ".to_owned();
    s.append(co_name);
    s.append(",\n\nPlease find attached our firm's quote in response to Solicitation ");
    s.append(sol);
    s.append(".\n");
    s.append(company);
    s.append(" is pleased to submit the following in accordance with the\nrequirements set forth in the solicitation documents.\n\nAttached:\n");
    s.append(att_list);
    s.append("\n\nWe have reviewed all solicitation documents, amendments (if any), and\nperformance work statements in full. Our pricing reflects the complete\nscope of work and all applicable terms and conditions.\n\nShould you require clarification or additional information, please do not\nhesitate to contact us. We look forward to the opportunity to support your\nmission.\n\n");
    s.append(sig);
    s
}

/// Body of the amendment e-mail.
pub open spec fn amendment_body(company: Seq<char>, amend: Seq<char>, sol: Seq<char>, sig: Seq<char>) -> Seq<char> {
    "To Whom It May Concern,\n\nThis email serves as formal acknowledgment that "@ + company + " has received and\nreviewed Amendment No. "@ + amend + " to Solicitation "@ + sol + ".\n\nWe confirm:\n  • We have reviewed the full text of Amendment "@ + amend + ".\n  • Our quote (if already submitted) will be revised as necessary to reflect\n    any changes introduced by this amendment.\n  • If our quote has not yet been submitted, this amendment has been\n    incorporated into our preparation.\n\nPlease let us know if further acknowledgment or documentation is required.\n\n"@ + sig
}

fn amendment_body_text(company: &str, amend: &str, sol: &str, sig: &str) -> (r: String)
    ensures
        r@ == amendment_body(company@, amend@, sol@, sig@),
{
    let mut s = "To Whom It May Concern,\n\nThis email serves as formal acknowledgment that ".to_owned();
    s.append(company);
    s.append(" has received and\nreviewed Amendment No. ");
    s.append(amend);
    s.append(" to Solicitation ");
    s.append(sol);
    s.append(".\n\nWe confirm:\n  • We have reviewed the full text of Amendment ");
    s.append(amend);
    s.append(".\n  • Our quote (if already submitted) will be revised as necessary to reflect\n    any changes introduced by this amendment.\n  • If our quote has not yet been submitted, this amendment has been\n    incorporated into our preparation.\n\nPlease let us know if further acknowledgment or documentation is required.\n\n");
    s.append(sig);
    s
}

/// Body of the debrief e-mail.
pub open spec fn debrief_body(co_name: Seq<char>, company: Seq<char>, sol: Seq<char>, sig: Seq<char>) -> Seq<char> {
    "Dear "@ + co_name + ",\n\n"@ + company + " respectfully requests a post-award debriefing pursuant to\nFAR 15.506 for Solicitation "@ + sol + ".\n\nWe are requesting this debriefing to:\n  • Understand the strengths and weaknesses of our submitted quote.\n  • Obtain information that will help us improve future submissions.\n  • Gain insight into the evaluation criteria and how our offer was assessed.\n\nWe understand the debriefing may be conducted in writing, by telephone, or\nin person at the contracting office's discretion. We are flexible and can\naccommodate any format convenient for your team.\n\nPlease advise us of the available format, date, and any information we\nshould prepare in advance. We appreciate the opportunity to improve our\ncompetitiveness and look forward to working with your agency on future\nprocurements.\n\n"@ + sig
}

fn debrief_body_text(co_name: &str, company: &str, sol: &str, sig: &str) -> (r: String)
    ensures
        r@ == debrief_body(co_name@, company@, sol@, sig@),
{
    let mut s = "Dear ".to_owned();
    s.append(co_name);
    s.append(",\n\n");
    s.append(company);
    s.append(" respectfully requests a post-award debriefing pursuant to\nFAR 15.506 for Solicitation ");
    s.append(sol);
    s.append(".\n\nWe are requesting this debriefing to:\n  • Understand the strengths and weaknesses of our submitted quote.\n  • Obtain information that will help us improve future submissions.\n  • Gain insight into the evaluation criteria and how our offer was assessed.\n\nWe understand the debriefing may be conducted in writing, by telephone, or\nin person at the contracting office's discretion. We are flexible and can\naccommodate any format convenient for your team.\n\nPlease advise us of the available format, date, and any information we\nshould prepare in advance. We appreciate the opportunity to improve our\ncompetitiveness and look forward to working with your agency on future\nprocurements.\n\n");
    s.append(sig);
    s
}

/// Body of the award e-mail.
pub open spec fn award_body(salutation: Seq<char>, company: Seq<char>, contract: Seq<char>, sig: Seq<char>) -> Seq<char> {
    salutation + ",\n\n"@ + company + " is pleased to acknowledge receipt of the award notification for\nContract "@ + contract + ". We are honored by the confidence placed in our firm and\nare committed to delivering exceptional performance throughout the life of\nthis contract.\n\nTo ensure a smooth contract start-up, we would appreciate guidance on the\nfollowing:\n\n  1. Point of contact for day-to-day contract administration (COR / COTR).\n  2. Required reporting, invoicing, and documentation procedures.\n  3. Performance start date and any mobilization or pre-performance\n     requirements.\n  4. Preferred communication channels and cadence for status updates.\n\nWe stand ready to begin performance and will comply fully with all terms,\nconditions, and applicable regulations. Please do not hesitate to contact us\nwith any questions or requirements.\n\n"@ + sig
}

fn award_body_text(salutation: &str, company: &str, contract: &str, sig: &str) -> (r: String)
    ensures
        r@ == award_body(salutation@, company@, contract@, sig@),
{
    let mut s = String::new();
    s.append(salutation);
    s.append(",\n\n");
    s.append(company);
    s.append(" is pleased to acknowledge receipt of the award notification for\nContract ");
    s.append(contract);
    s.append(". We are honored by the confidence placed in our firm and\nare committed to delivering exceptional performance throughout the life of\nthis contract.\n\nTo ensure a smooth contract start-up, we would appreciate guidance on the\nfollowing:\n\n  1. Point of contact for day-to-day contract administration (COR / COTR).\n  2. Required reporting, invoicing, and documentation procedures.\n  3. Performance start date and any mobilization or pre-performance\n     requirements.\n  4. Preferred communication channels and cadence for status updates.\n\nWe stand ready to begin performance and will comply fully with all terms,\nconditions, and applicable regulations. Please do not hesitate to contact us\nwith any questions or requirements.\n\n");
    s.append(sig);
    s
}

/// Body of the status e-mail.
pub open spec fn status_body(company: Seq<char>, contract: Seq<char>, month: Seq<char>, status: Seq<char>, sig: Seq<char>) -> Seq<char> {
    "To Whom It May Concern,\n\n"@ + company + " is pleased to provide the following monthly status update for\nContract "@ + contract + " — reporting period: "@ + month + ".\n\nCurrent Status: "@ + status + "\n\nSummary:\n  • All performance objectives are being tracked and managed in accordance\n    with the contract statement of work.\n  • No significant issues, risks, or delays to report at this time unless\n    noted in the status above.\n  • Invoicing and documentation are current and in compliance with contract\n    requirements.\n\nPlease do not hesitate to contact us if you require additional detail or\nif any action items need to be addressed.\n\n"@ + sig
}

fn status_body_text(company: &str, contract: &str, month: &str, status: &str, sig: &str) -> (r: String)
    ensures
        r@ == status_body(company@, contract@, month@, status@, sig@),
{
    let mut s = "To Whom It May Concern,\n\n".to_owned();
    s.append(company);
    s.append(" is pleased to provide the following monthly status update for\nContract ");
    s.append(contract);
    s.append(" — reporting period: ");
    s.append(month);
    s.append(".\n\nCurrent Status: ");
    s.append(status);
    s.append("\n\nSummary:\n  • All performance objectives are being tracked and managed in accordance\n    with the contract statement of work.\n  • No significant issues, risks, or delays to report at this time unless\n    noted in the status above.\n  • Invoicing and documentation are current and in compliance with contract\n    requirements.\n\nPlease do not hesitate to contact us if you require additional detail or\nif any action items need to be addressed.\n\n");
    s.append(sig);
    s
}

/// Body of the question e-mail.
pub open spec fn question_body(company: Seq<char>, sol: Seq<char>, question: Seq<char>, sig: Seq<char>) -> Seq<char> {
    "To Whom It May Concern,\n\n"@ + company + " respectfully submits the following question regarding\nSolicitation "@ + sol + ":\n\n  "@ + question + "\n\nWe appreciate your assistance in clarifying this matter. Should additional\ninformation be needed to address our question, please do not hesitate to\ncontact us. We look forward to your response.\n\n"@ + sig
}

fn question_body_text(company: &str, sol: &str, question: &str, sig: &str) -> (r: String)
    ensures
        r@ == question_body(company@, sol@, question@, sig@),
{
    let mut s = "To Whom It May Concern,\n\n".to_owned();
    s.append(company);
    s.append(" respectfully submits the following question regarding\nSolicitation ");
    s.append(sol);
    s.append(":\n\n  ");
    s.append(question);
    s.append("\n\nWe appreciate your assistance in clarifying this matter. Should additional\ninformation be needed to address our question, please do not hesitate to\ncontact us. We look forward to your response.\n\n");
    s.append(sig);
    s
}

/// Body of the invoice e-mail.
pub open spec fn invoice_body(company: Seq<char>, contract_ref: Seq<char>, invoice_number: Seq<char>, contract_line: Seq<char>, amount: Seq<char>, sig: Seq<char>) -> Seq<char> {
    "To Whom It May Concern,\n\n"@ + company + " hereby submits the following invoice for services rendered"@ + contract_ref + ":\n\n  Invoice Number:  "@ + invoice_number + "\n  "@ + contract_line + "Invoice Amount:  $"@ + amount + "\n\nPlease find the invoice attached to this correspondence. Payment should be\nremitted in accordance with the terms set forth in the contract and applicable\nprompt-payment regulations (31 U.S.C. § 3901 et seq.).\n\nIf you have any questions regarding this invoice or require additional\nsupporting documentation, please contact us at your earliest convenience.\n\n"@ + sig
}

fn invoice_body_text(company: &str, contract_ref: &str, invoice_number: &str, contract_line: &str, amount: &str, sig: &str) -> (r: String)
    ensures
        r@ == invoice_body(company@, contract_ref@, invoice_number@, contract_line@, amount@, sig@),
{
    let mut s = "To Whom It May Concern,\n\n".to_owned();
    s.append(company);
    s.append(" hereby submits the following invoice for services rendered");
    s.append(contract_ref);
    s.append(":\n\n  Invoice Number:  ");
    s.append(invoice_number);
    s.append("\n  ");
    s.append(contract_line);
    s.append("Invoice Amount:  $");
    s.append(amount);
    s.append("\n\nPlease find the invoice attached to this correspondence. Payment should be\nremitted in accordance with the terms set forth in the contract and applicable\nprompt-payment regulations (31 U.S.C. § 3901 et seq.).\n\nIf you have any questions regarding this invoice or require additional\nsupporting documentation, please contact us at your earliest convenience.\n\n");
    s.append(sig);
    s
}


// ---------------------------------------------------------------------------
// Drafts
// ---------------------------------------------------------------------------

/// A draft as recipient, subject and body.
pub open spec fn draft_view(d: EmailDraft) -> (Seq<char>, Seq<char>, Seq<char>) {
    (d.to@, d.subject@, d.body@)
}

/// Attachment lines of a quote: the given file names as bullets, or the
/// standard list where none is given.
pub open spec fn attachment_list(atts: Seq<Seq<char>>) -> Seq<char> {
    if atts.len() == 0 {
        "    • Completed SF 1449 / quote form\n    • Price schedule\n    • Any required representations and certifications"@
    } else {
        crate::text::join(atts.map_values(|a: Seq<char>| "    • "@ + a), "\n"@)
    }
}

pub open spec fn str_slice_views(atts: Seq<&str>) -> Seq<Seq<char>> {
    atts.map_values(|a: &str| a@)
}

fn attachment_list_text(attachments: &[&str]) -> (r: String)
    ensures
        r@ == attachment_list(str_slice_views(attachments@)),
{
    if attachments.len() == 0 {
        return "    • Completed SF 1449 / quote form\n    • Price schedule\n    • Any required representations and certifications".to_owned();
    }
    let ghost av = str_slice_views(attachments@);
    let mut lines: Vec<Vec<char>> = Vec::new();
    let mut i: usize = 0;
    while i < attachments.len()
        invariant
            i <= attachments.len(),
            av == str_slice_views(attachments@),
            crate::text::views(lines@) == av.take(i as int).map_values(|a: Seq<char>| "    • "@ + a),
        decreases attachments.len() - i,
    {
        let mut l = "    • ".to_owned();
        l.append(attachments[i]);
        let lv = chars_of(l.as_str());
        let ghost before = crate::text::views(lines@);
        lines.push(lv);
        assert(crate::text::views(lines@) =~= before.push("    • "@ + av[i as int]));
        assert(av.take(i + 1).map_values(|a: Seq<char>| "    • "@ + a) =~= av.take(i as int).map_values(
            |a: Seq<char>| "    • "@ + a,
        ).push("    • "@ + av[i as int]));
        i = i + 1;
    }
    assert(av.take(attachments.len() as int) =~= av);
    let sep = chars_of("\n");
    string_of(&crate::text::join_vec(&lines, &sep))
}

/// Quote-submission draft signed by `id`.
pub open spec fn quote_draft(
    id: Identity,
    sol: Seq<char>,
    co_name: Seq<char>,
    co_email: Seq<char>,
    atts: Seq<Seq<char>>,
) -> (Seq<char>, Seq<char>, Seq<char>) {
    (
        co_email,
        "Quote Submission — Solicitation "@ + sol,
        quote_body(co_name, sol, id.company@, attachment_list(atts), signature_text(id)),
    )
}

/// Drafts a quote-submission e-mail signed by `id`, listing the given
/// attachments (or the standard ones where none are given).
pub fn quote_submit_from(
    id: &Identity,
    sol: &str,
    co_name: &str,
    co_email: &str,
    attachments: &[&str],
) -> (r: EmailDraft)
    ensures
        draft_view(r) == quote_draft(*id, sol@, co_name@, co_email@, str_slice_views(attachments@)),
{
    let att = attachment_list_text(attachments);
    let sig = signature(id);
    let body = quote_body_text(co_name, sol, id.company.as_str(), att.as_str(), sig.as_str());
    let mut subject = "Quote Submission — Solicitation ".to_owned();
    subject.append(sol);
    EmailDraft { to: co_email.to_owned(), subject, body }
}

/// Drafts a quote-submission e-mail; `company` and `signer` override the
/// base identity where given and not empty.
pub fn quote_submit(
    base: &Identity,
    sol: &str,
    co_name: &str,
    co_email: &str,
    attachments: &[&str],
    company: Option<&str>,
    signer: Option<&str>,
) -> (r: EmailDraft)
    ensures
        exists|id: Identity|
            overrides_of(id, *base, company, signer)
                && draft_view(r) == quote_draft(id, sol@, co_name@, co_email@, str_slice_views(attachments@)),
{
    let id = Identity::with_overrides(base, company, signer);
    quote_submit_from(&id, sol, co_name, co_email, attachments)
}

/// Amendment-acknowledgment draft signed by `id`.
pub open spec fn amendment_draft(id: Identity, sol: Seq<char>, n: nat, co_email: Seq<char>) -> (
    Seq<char>,
    Seq<char>,
    Seq<char>,
) {
    (
        co_email,
        "Amendment "@ + crate::text::dec(n) + " Acknowledgment — Solicitation "@ + sol,
        amendment_body(id.company@, crate::text::dec(n), sol, signature_text(id)),
    )
}

pub fn amendment_ack_from(id: &Identity, sol: &str, amendment_num: u32, co_email: &str) -> (r: EmailDraft)
    ensures
        draft_view(r) == amendment_draft(*id, sol@, amendment_num as nat, co_email@),
{
    let n = string_of(&crate::text::u64_to_dec(amendment_num as u64));
    let sig = signature(id);
    let body = amendment_body_text(id.company.as_str(), n.as_str(), sol, sig.as_str());
    let mut subject = "Amendment ".to_owned();
    subject.append(n.as_str());
    subject.append(" Acknowledgment — Solicitation ");
    subject.append(sol);
    EmailDraft { to: co_email.to_owned(), subject, body }
}

/// Drafts an amendment-acknowledgment e-mail.
pub fn amendment_ack(
    base: &Identity,
    sol: &str,
    amendment_num: u32,
    co_email: &str,
    company: Option<&str>,
    signer: Option<&str>,
) -> (r: EmailDraft)
    ensures
        exists|id: Identity|
            overrides_of(id, *base, company, signer)
                && draft_view(r) == amendment_draft(id, sol@, amendment_num as nat, co_email@),
{
    let id = Identity::with_overrides(base, company, signer);
    amendment_ack_from(&id, sol, amendment_num, co_email)
}

/// Debrief-request draft signed by `id`.
pub open spec fn debrief_draft(id: Identity, sol: Seq<char>, co_name: Seq<char>, co_email: Seq<char>) -> (
    Seq<char>,
    Seq<char>,
    Seq<char>,
) {
    (
        co_email,
        "Post-Award Debrief Request — Solicitation "@ + sol + " (FAR 15.506)"@,
        debrief_body(co_name, id.company@, sol, signature_text(id)),
    )
}

pub fn debrief_request_from(id: &Identity, sol: &str, co_name: &str, co_email: &str) -> (r: EmailDraft)
    ensures
        draft_view(r) == debrief_draft(*id, sol@, co_name@, co_email@),
{
    let sig = signature(id);
    let body = debrief_body_text(co_name, id.company.as_str(), sol, sig.as_str());
    let mut subject = "Post-Award Debrief Request — Solicitation ".to_owned();
    subject.append(sol);
    subject.append(" (FAR 15.506)");
    EmailDraft { to: co_email.to_owned(), subject, body }
}

/// Drafts a post-award debrief request (FAR 15.506).
pub fn debrief_request(
    base: &Identity,
    sol: &str,
    co_name: &str,
    co_email: &str,
    company: Option<&str>,
    signer: Option<&str>,
) -> (r: EmailDraft)
    ensures
        exists|id: Identity|
            overrides_of(id, *base, company, signer)
                && draft_view(r) == debrief_draft(id, sol@, co_name@, co_email@),
{
    let id = Identity::with_overrides(base, company, signer);
    debrief_request_from(&id, sol, co_name, co_email)
}

/// Award-response draft signed by `id`; without a CO name the salutation is
/// "To Whom It May Concern".
pub open spec fn award_draft(id: Identity, contract: Seq<char>, co_name: Seq<char>, co_email: Seq<char>) -> (
    Seq<char>,
    Seq<char>,
    Seq<char>,
) {
    let salutation = if co_name.len() == 0 {
        "To Whom It May Concern"@
    } else {
        "Dear "@ + co_name
    };
    (
        co_email,
        "Award Acknowledgment — Contract "@ + contract,
        award_body(salutation, id.company@, contract, signature_text(id)),
    )
}

pub fn award_response_from(id: &Identity, contract: &str, co_name: &str, co_email: &str) -> (r: EmailDraft)
    ensures
        draft_view(r) == award_draft(*id, contract@, co_name@, co_email@),
{
    let salutation = if co_name.is_empty() {
        "To Whom It May Concern".to_owned()
    } else {
        let mut s = "Dear ".to_owned();
        s.append(co_name);
        s
    };
    let sig = signature(id);
    let body = award_body_text(salutation.as_str(), id.company.as_str(), contract, sig.as_str());
    let mut subject = "Award Acknowledgment — Contract ".to_owned();
    subject.append(contract);
    EmailDraft { to: co_email.to_owned(), subject, body }
}

/// Drafts a response to an award notification.
pub fn award_response(
    base: &Identity,
    contract: &str,
    co_name: &str,
    co_email: &str,
    company: Option<&str>,
    signer: Option<&str>,
) -> (r: EmailDraft)
    ensures
        exists|id: Identity|
            overrides_of(id, *base, company, signer)
                && draft_view(r) == award_draft(id, contract@, co_name@, co_email@),
{
    let id = Identity::with_overrides(base, company, signer);
    award_response_from(&id, contract, co_name, co_email)
}

/// Monthly status-update draft signed by `id`, for the reporting period
/// `month` (as "Month YYYY").
pub open spec fn status_draft(
    id: Identity,
    contract: Seq<char>,
    status: Seq<char>,
    co_email: Seq<char>,
    month: Seq<char>,
) -> (Seq<char>, Seq<char>, Seq<char>) {
    (
        co_email,
        "Monthly Status Update — Contract "@ + contract + " ("@ + month + ")"@,
        status_body(id.company@, contract, month, status, signature_text(id)),
    )
}

pub fn status_update_from(
    id: &Identity,
    contract: &str,
    status: &str,
    co_email: &str,
    month: &str,
) -> (r: EmailDraft)
    ensures
        draft_view(r) == status_draft(*id, contract@, status@, co_email@, month@),
{
    let sig = signature(id);
    let body = status_body_text(id.company.as_str(), contract, month, status, sig.as_str());
    let mut subject = "Monthly Status Update — Contract ".to_owned();
    subject.append(contract);
    subject.append(" (");
    subject.append(month);
    subject.append(")");
    EmailDraft { to: co_email.to_owned(), subject, body }
}

/// The current month and year (`chrono::Utc::now().format("%B %Y")`);
/// nothing is promised of the text, which depends on the clock.
#[verifier::external_body]
fn current_month() -> String {
    chrono::Utc::now().format("%B %Y").to_string()
}

/// Drafts a monthly status update for the current month.
pub fn status_update(
    base: &Identity,
    contract: &str,
    status: &str,
    co_email: &str,
    company: Option<&str>,
    signer: Option<&str>,
) -> (r: EmailDraft)
    ensures
        exists|id: Identity, month: Seq<char>|
            overrides_of(id, *base, company, signer)
                && draft_view(r) == status_draft(id, contract@, status@, co_email@, month),
{
    let id = Identity::with_overrides(base, company, signer);
    let month = current_month();
    status_update_from(&id, contract, status, co_email, month.as_str())
}

/// Question-to-CO draft signed by `id`.
pub open spec fn question_draft(id: Identity, sol: Seq<char>, q: Seq<char>, co_email: Seq<char>) -> (
    Seq<char>,
    Seq<char>,
    Seq<char>,
) {
    (
        co_email,
        "Question Regarding Solicitation "@ + sol,
        question_body(id.company@, sol, q, signature_text(id)),
    )
}

pub fn question_from(id: &Identity, sol: &str, question_text: &str, co_email: &str) -> (r: EmailDraft)
    ensures
        draft_view(r) == question_draft(*id, sol@, question_text@, co_email@),
{
    let sig = signature(id);
    let body = question_body_text(id.company.as_str(), sol, question_text, sig.as_str());
    let mut subject = "Question Regarding Solicitation ".to_owned();
    subject.append(sol);
    EmailDraft { to: co_email.to_owned(), subject, body }
}

/// Drafts a pre-solicitation question to the contracting officer.
pub fn question(
    base: &Identity,
    sol: &str,
    question_text: &str,
    co_email: &str,
    company: Option<&str>,
    signer: Option<&str>,
) -> (r: EmailDraft)
    ensures
        exists|id: Identity|
            overrides_of(id, *base, company, signer)
                && draft_view(r) == question_draft(id, sol@, question_text@, co_email@),
{
    let id = Identity::with_overrides(base, company, signer);
    question_from(&id, sol, question_text, co_email)
}

/// Invoice-submission draft signed by `id`; `amount` is the amount already
/// written with two decimals.
pub open spec fn invoice_draft(
    id: Identity,
    invoice_number: Seq<char>,
    amount: Seq<char>,
    contract: Option<Seq<char>>,
    co_email: Seq<char>,
) -> (Seq<char>, Seq<char>, Seq<char>) {
    let contract_line = match contract {
        Some(c) => "Contract Number: "@ + c + "\n"@,
        None => Seq::empty(),
    };
    let contract_ref = match contract {
        Some(c) => " under Contract "@ + c,
        None => Seq::empty(),
    };
    let subject = match contract {
        Some(c) => "Invoice Submission — "@ + invoice_number + " — Contract "@ + c,
        None => "Invoice Submission — "@ + invoice_number,
    };
    (
        co_email,
        subject,
        invoice_body(id.company@, contract_ref, invoice_number, contract_line, amount, signature_text(id)),
    )
}

/// Drafts an invoice-submission e-mail for an amount already written with
/// two decimals.
pub fn invoice_submit_from(
    id: &Identity,
    invoice_number: &str,
    amount: &str,
    contract: Option<&str>,
    co_email: &str,
) -> (r: EmailDraft)
    ensures
        draft_view(r) == invoice_draft(
            *id,
            invoice_number@,
            amount@,
            match contract {
                Some(c) => Some(c@),
                None => None,
            },
            co_email@,
        ),
{
    let (contract_line, contract_ref, subject) = match contract {
        Some(c) => {
            let mut line = "Contract Number: ".to_owned();
            line.append(c);
            line.append("\n");
            let mut r = " under Contract ".to_owned();
            r.append(c);
            let mut subj = "Invoice Submission — ".to_owned();
            subj.append(invoice_number);
            subj.append(" — Contract ");
            subj.append(c);
            (line, r, subj)
        },
        None => {
            let mut subj = "Invoice Submission — ".to_owned();
            subj.append(invoice_number);
            (String::new(), String::new(), subj)
        },
    };
    let sig = signature(id);
    let body = invoice_body_text(
        id.company.as_str(),
        contract_ref.as_str(),
        invoice_number,
        contract_line.as_str(),
        amount,
        sig.as_str(),
    );
    EmailDraft { to: co_email.to_owned(), subject, body }
}
} // verus!
