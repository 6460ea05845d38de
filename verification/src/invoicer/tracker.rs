//! Invoice status as stored in the invoice register.
use vstd::prelude::*;
use crate::text::{chars_of, eq_str};

verus! {

/// Where an invoice stands.
#[derive(Debug, Clone, Copy, PartialEq, Eq, Structural)]
pub enum InvoiceStatus {
    Draft,
    Submitted,
    Paid,
}

pub open spec fn status_name(s: InvoiceStatus) -> Seq<char> {
    match s {
        InvoiceStatus::Draft => "draft"@,
        InvoiceStatus::Submitted => "submitted"@,
        InvoiceStatus::Paid => "paid"@,
    }
}

/// The status stored as `s`: submitted, paid, or draft for anything else.
pub open spec fn status_of(s: Seq<char>) -> InvoiceStatus {
    if s == "submitted"@ {
        InvoiceStatus::Submitted
    } else if s == "paid"@ {
        InvoiceStatus::Paid
    } else {
        InvoiceStatus::Draft
    }
}

impl InvoiceStatus {
    pub fn as_str(&self) -> (r: &'static str)
        ensures
            r@ == status_name(*self),
    {
        match self {
            InvoiceStatus::Draft => "draft",
            InvoiceStatus::Submitted => "submitted",
            InvoiceStatus::Paid => "paid",
        }
    }

    pub fn from_str(s: &str) -> (r: InvoiceStatus)
        ensures
            r == status_of(s@),
    {
        let v = chars_of(s);
        if eq_str(&v, "submitted") {
            InvoiceStatus::Submitted
        } else if eq_str(&v, "paid") {
            InvoiceStatus::Paid
        } else {
            InvoiceStatus::Draft
        }
    }
}

/// Storing a status and reading it back gives the same status.
pub proof fn lemma_status_round_trip(s: InvoiceStatus)
    ensures
        status_of(status_name(s)) == s,
{
    reveal_strlit("draft");
    reveal_strlit("submitted");
    reveal_strlit("paid");
    assert("draft"@[0] == 'd' && "submitted"@[0] == 's' && "paid"@[0] == 'p');
}

} // verus!
