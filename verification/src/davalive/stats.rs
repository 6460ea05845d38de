//! The cumulative statistics summary.
use vstd::prelude::*;
use crate::text::{dec, dec_int, i64_to_dec, string_of, u64_to_dec};

verus! {

/// Aggregate statistics across the tools and the event bus.
#[derive(Debug, Default)]
pub struct DavaStats {
    /// Total events ever published to the bus.
    pub total_bus_events: i64,
    /// Total cross-tool knowledge entries shared.
    pub total_knowledge_entries: i64,
    /// Total connector memory key-value pairs stored.
    pub total_memory_entries: i64,
    /// Unique form fields learned.
    pub fields_learned: i64,
    /// Form templates cached.
    pub templates_cached: i64,
    /// Events seen by the learning connector.
    pub learning_events_seen: i64,
    /// How many tool binaries are built.
    pub tools_built: usize,
    /// How many tools are tracked in total.
    pub tools_total: usize,
    /// Total lines of Rust source across the tools.
    pub total_rust_lines: usize,
}

/// The summary lines of the statistics, joined by newlines.
pub open spec fn display_text(s: DavaStats) -> Seq<char> {
    "  Bus events      : "@ + dec_int(s.total_bus_events as int) + "\n"@
        + "  Cross-knowledge : "@ + dec_int(s.total_knowledge_entries as int) + "\n"@
        + "  Connector memory: "@ + dec_int(s.total_memory_entries as int) + "\n"@
        + "  Fields learned  : "@ + dec_int(s.fields_learned as int) + "\n"@
        + "  Templates cached: "@ + dec_int(s.templates_cached as int) + "\n"@
        + "  Learning events : "@ + dec_int(s.learning_events_seen as int) + "\n"@
        + "  Tools built     : "@ + dec(s.tools_built as nat) + "/"@ + dec(s.tools_total as nat) + "\n"@
        + "  Rust lines      : "@ + dec(s.total_rust_lines as nat)
}

impl DavaStats {
    /// Summarises everything into a human-readable multi-line string.
    pub fn display(&self) -> (r: String)
        ensures
            r@ == display_text(*self),
    {
        let mut s = "  Bus events      : ".to_owned();
        s.append(string_of(&i64_to_dec(self.total_bus_events)).as_str());
        s.append("\n");
        s.append("  Cross-knowledge : ");
        s.append(string_of(&i64_to_dec(self.total_knowledge_entries)).as_str());
        s.append("\n");
        s.append("  Connector memory: ");
        s.append(string_of(&i64_to_dec(self.total_memory_entries)).as_str());
        s.append("\n");
        s.append("  Fields learned  : ");
        s.append(string_of(&i64_to_dec(self.fields_learned)).as_str());
        s.append("\n");
        s.append("  Templates cached: ");
        s.append(string_of(&i64_to_dec(self.templates_cached)).as_str());
        s.append("\n");
        s.append("  Learning events : ");
        s.append(string_of(&i64_to_dec(self.learning_events_seen)).as_str());
        s.append("\n");
        s.append("  Tools built     : ");
        s.append(string_of(&u64_to_dec(self.tools_built as u64)).as_str());
        s.append("/");
        s.append(string_of(&u64_to_dec(self.tools_total as u64)).as_str());
        s.append("\n");
        s.append("  Rust lines      : ");
        s.append(string_of(&u64_to_dec(self.total_rust_lines as u64)).as_str());
        s
    }
}

} // verus!
