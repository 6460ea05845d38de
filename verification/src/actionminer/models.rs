//! The action-item record.
use vstd::prelude::*;

verus! {

/// A single extracted action item.
#[derive(Debug, Clone)]
pub struct ActionItem {
    /// Unique row ID (0 before insertion).
    pub id: i64,
    /// Human-readable description of the action.
    pub description: String,
    /// Optional person responsible.
    pub assignee: Option<String>,
    /// Optional deadline / due-date string as found in text.
    pub deadline: Option<String>,
    /// Path to the source file (or "<stdin>").
    pub source_file: String,
    /// "open" or "done".
    pub status: String,
    /// RFC-3339 timestamp when the item was recorded.
    pub created_at: String,
}

pub open spec fn opt_view(o: Option<String>) -> Option<Seq<char>> {
    match o {
        Some(s) => Some(s@),
        None => None,
    }
}

/// An item as description, assignee, deadline and source file.
pub type ItemView = (Seq<char>, Option<Seq<char>>, Option<Seq<char>>, Seq<char>);

pub open spec fn item_view(a: ActionItem) -> ItemView {
    (a.description@, opt_view(a.assignee), opt_view(a.deadline), a.source_file@)
}

/// The current time in RFC 3339 (`chrono::Utc::now().to_rfc3339()`); nothing
/// is promised of the text, which depends on the clock.
#[verifier::external_body]
fn now_rfc3339() -> String {
    chrono::Utc::now().to_rfc3339()
}

impl ActionItem {
    /// A new open item, not yet stored (id 0), stamped with the current time.
    pub fn new(
        description: String,
        assignee: Option<String>,
        deadline: Option<String>,
        source_file: String,
    ) -> (r: ActionItem)
        ensures
            r.id == 0,
            r.description@ == description@,
            opt_view(r.assignee) == opt_view(assignee),
            opt_view(r.deadline) == opt_view(deadline),
            r.source_file@ == source_file@,
            r.status@ == "open"@,
    {
        let now = now_rfc3339();
        ActionItem {
            id: 0,
            description,
            assignee,
            deadline,
            source_file,
            status: "open".to_owned(),
            created_at: now,
        }
    }
}

} // verus!
