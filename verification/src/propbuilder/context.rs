//! The company, signer and solicitation records of a proposal, and the
//! merging of solicitation details found in the solicitation document.
use vstd::prelude::*;

verus! {

/// The offering company.
#[derive(Debug, Clone)]
pub struct CompanyInfo {
    pub name: String,
    pub cage: String,
    pub uei: String,
    pub address: String,
    pub phone: String,
    pub email: String,
}

/// The person who signs the proposal.
#[derive(Debug, Clone)]
pub struct SignerInfo {
    pub name: String,
    pub title: String,
    pub phone: String,
    pub email: String,
}

/// Details of the solicitation a proposal answers.
#[derive(Debug, Clone, Default)]
pub struct SolicitationMeta {
    pub number: String,
    pub title: String,
    pub due_date: String,
    pub co_name: String,
    pub co_email: String,
    pub agency: String,
    pub issue_date: String,
}

/// A field of the merge: the found value where it is not empty, else the
/// current one.
pub open spec fn pick(current: Seq<char>, found: Seq<char>) -> Seq<char> {
    if found.len() > 0 {
        found
    } else {
        current
    }
}

fn pick_field(current: String, found: String) -> (r: String)
    ensures
        r@ == pick(current@, found@),
{
    if found.as_str().is_empty() {
        current
    } else {
        found
    }
}

/// Merges solicitation details found in the document into those of the
/// context: each non-empty found field (number, title, due date, CO name,
/// CO e-mail, agency) replaces the context's; the issue date is kept.
pub fn merge_solicitation(current: SolicitationMeta, found: Option<SolicitationMeta>) -> (r: SolicitationMeta)
    ensures
        match found {
            None => r.number@ == current.number@ && r.title@ == current.title@ && r.due_date@
                == current.due_date@ && r.co_name@ == current.co_name@ && r.co_email@
                == current.co_email@ && r.agency@ == current.agency@,
            Some(s) => r.number@ == pick(current.number@, s.number@) && r.title@ == pick(
                current.title@,
                s.title@,
            ) && r.due_date@ == pick(current.due_date@, s.due_date@) && r.co_name@ == pick(
                current.co_name@,
                s.co_name@,
            ) && r.co_email@ == pick(current.co_email@, s.co_email@) && r.agency@ == pick(
                current.agency@,
                s.agency@,
            ),
        },
        r.issue_date@ == current.issue_date@,
{
    match found {
        None => current,
        Some(s) => SolicitationMeta {
            number: pick_field(current.number, s.number),
            title: pick_field(current.title, s.title),
            due_date: pick_field(current.due_date, s.due_date),
            co_name: pick_field(current.co_name, s.co_name),
            co_email: pick_field(current.co_email, s.co_email),
            agency: pick_field(current.agency, s.agency),
            issue_date: current.issue_date,
        },
    }
}

} // verus!
