//! Records of the message bus through which the tools publish events.
use vstd::prelude::*;
use crate::text::{contains, occurs_at};

verus! {

/// One event on the bus.
#[derive(Debug, Clone)]
pub struct BusEvent {
    pub id: i64,
    pub source_tool: String,
    pub event_type: String,
    /// JSON text.
    pub payload: String,
    pub created_at: String,
    /// Comma-separated names of the consumers that processed this event.
    pub consumed_by: String,
}

/// Row counts of the bus tables.
#[derive(Debug)]
pub struct BusStats {
    pub total_events: i64,
    pub total_knowledge: i64,
    pub total_memory: i64,
}

/// The consumer list after `consumer` acknowledges an event whose list was
/// `current`.
pub open spec fn acked_list(current: Seq<char>, consumer: Seq<char>) -> Seq<char> {
    if current.len() == 0 {
        consumer
    } else {
        current + ","@ + consumer
    }
}

/// Appends `consumer` to the comma-separated consumer list `current`.
pub fn consumers_after_ack(current: &str, consumer: &str) -> (r: String)
    ensures
        r@ == acked_list(current@, consumer@),
{
    if current.is_empty() {
        consumer.to_owned()
    } else {
        let mut s = current.to_owned();
        s.append(",");
        s.append(consumer);
        proof {
            reveal_strlit(",");
        }
        s
    }
}

/// An acknowledgement leaves the acknowledging consumer named in the event's
/// consumer list, so the event is no longer pending for it, and keeps every
/// consumer that was named there before.
pub proof fn lemma_ack_marks_consumed(current: Seq<char>, consumer: Seq<char>, other: Seq<char>)
    ensures
        contains(acked_list(current, consumer), consumer),
        contains(current, other) ==> contains(acked_list(current, consumer), other),
{
    reveal_strlit(",");
    let r = acked_list(current, consumer);
    if current.len() == 0 {
        assert(r.subrange(0, consumer.len() as int) =~= consumer);
        assert(occurs_at(r, consumer, 0));
        if contains(current, other) {
            let i = choose|i: int| occurs_at(current, other, i);
            assert(r.subrange(0, other.len() as int) =~= other);
            assert(occurs_at(r, other, 0));
        }
    } else {
        let at: int = current.len() as int + 1;
        assert(r.subrange(at, at + consumer.len()) =~= consumer);
        assert(occurs_at(r, consumer, at));
        if contains(current, other) {
            let i = choose|i: int| occurs_at(current, other, i);
            assert(r.subrange(i, i + other.len()) =~= current.subrange(i, i + other.len()));
            assert(occurs_at(r, other, i));
        }
    }
}

} // verus!
