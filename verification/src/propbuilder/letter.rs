//! The wording of the cover letter: who it is addressed to, what it answers
//! and its opening paragraphs.
use vstd::prelude::*;
use crate::propbuilder::context::{CompanyInfo, SolicitationMeta};

verus! {

/// The texts of a cover letter that depend on the company and the
/// solicitation.
#[derive(Debug, Clone)]
pub struct CoverLetterText {
    /// The contracting officer addressed.
    pub addressee: String,
    /// The subject line.
    pub subject: String,
    /// The salutation.
    pub salutation: String,
    /// The paragraph offering the company's services.
    pub opening: String,
    /// The paragraph with the company's registration.
    pub credentials: String,
}

/// The addressee: the override where given and not empty, else the
/// solicitation's contracting officer where named, else a generic title.
pub open spec fn addressee_of(sol_co: Seq<char>, over: Option<&str>) -> Seq<char> {
    match over {
        Some(o) if o@.len() > 0 => o@,
        _ => if sol_co.len() > 0 {
            sol_co
        } else {
            "Contracting Officer"@
        },
    }
}

/// How the solicitation is referred to.
pub open spec fn sol_ref_of(number: Seq<char>) -> Seq<char> {
    if number.len() > 0 {
        "Solicitation No. "@ + number
    } else {
        "Solicitation"@
    }
}

/// What the offer is for.
pub open spec fn title_of(title: Seq<char>) -> Seq<char> {
    if title.len() > 0 {
        title
    } else {
        "Services"@
    }
}

pub open spec fn opening_text(company: Seq<char>, sol_ref: Seq<char>, title: Seq<char>) -> Seq<char> {
    company + " is pleased to submit this offer in response to "@ + sol_ref + " for "@ + title
        + ". We have carefully reviewed all solicitation requirements and are fully capable of meeting and exceeding the performance standards outlined therein."@
}

pub open spec fn credentials_text(company: Seq<char>, cage: Seq<char>, uei: Seq<char>) -> Seq<char> {
    "As a verified SAM.gov vendor (CAGE: "@ + cage + ", UEI: "@ + uei + "), "@ + company
        + " brings demonstrated experience in federal service delivery. Our team is committed to quality, compliance, and timely performance."@
}

/// The cover-letter texts for a company answering a solicitation.
pub fn cover_letter_text(company: &CompanyInfo, sol: &SolicitationMeta, co_name_override: Option<&str>) -> (r: CoverLetterText)
    ensures
        r.addressee@ == addressee_of(sol.co_name@, co_name_override),
        r.subject@ == "RE: Offer in Response to "@ + sol_ref_of(sol.number@),
        r.salutation@ == "Dear "@ + addressee_of(sol.co_name@, co_name_override) + ","@,
        r.opening@ == opening_text(company.name@, sol_ref_of(sol.number@), title_of(sol.title@)),
        r.credentials@ == credentials_text(company.name@, company.cage@, company.uei@),
{
    let addressee = match co_name_override {
        Some(o) if !o.is_empty() => o.to_owned(),
        _ => if !sol.co_name.as_str().is_empty() {
            sol.co_name.clone()
        } else {
            "Contracting Officer".to_owned()
        },
    };
    let sol_ref = if !sol.number.as_str().is_empty() {
        let mut s = "Solicitation No. ".to_owned();
        s.append(sol.number.as_str());
        s
    } else {
        "Solicitation".to_owned()
    };
    let title = if !sol.title.as_str().is_empty() {
        sol.title.clone()
    } else {
        "Services".to_owned()
    };
    let mut subject = "RE: Offer in Response to ".to_owned();
    subject.append(sol_ref.as_str());
    let mut salutation = "Dear ".to_owned();
    salutation.append(addressee.as_str());
    salutation.append(",");
    let mut opening = company.name.clone();
    opening.append(" is pleased to submit this offer in response to ");
    opening.append(sol_ref.as_str());
    opening.append(" for ");
    opening.append(title.as_str());
    opening.append(". We have carefully reviewed all solicitation requirements and are fully capable of meeting and exceeding the performance standards outlined therein.");
    let mut credentials = "As a verified SAM.gov vendor (CAGE: ".to_owned();
    credentials.append(company.cage.as_str());
    credentials.append(", UEI: ");
    credentials.append(company.uei.as_str());
    credentials.append("), ");
    credentials.append(company.name.as_str());
    credentials.append(" brings demonstrated experience in federal service delivery. Our team is committed to quality, compliance, and timely performance.");
    CoverLetterText { addressee, subject, salutation, opening, credentials }
}

} // verus!
