//! Display helpers for sheet listings.
use vstd::prelude::*;
use crate::text::{char_boundary, chars_of, prefix_within, string_of, take_bytes, utf8_len};

verus! {

/// `s` cut to `max` bytes for display: unchanged where it fits, else its
/// first `max - 1` bytes followed by an ellipsis.
pub open spec fn truncated(s: Seq<char>, max: nat) -> Seq<char> {
    if utf8_len(s) <= max {
        s
    } else {
        prefix_within(s, (max - 1) as nat) + "…"@
    }
}

/// Shortens `s` to fit a column of `max` bytes, marking the cut with `…`.
/// Where `s` is longer than `max`, the cut falls between two characters.
pub fn truncate(s: &str, max: usize) -> (r: String)
    requires
        utf8_len(s@) <= max || (max >= 1 && char_boundary(s@, (max - 1) as nat)),
    ensures
        r@ == truncated(s@, max as nat),
{
    let v = chars_of(s);
    if crate::text::utf8_len_wide(&v) <= max as u128 {
        return s.to_owned();
    }
    let p = take_bytes(&v, max - 1);
    let mut out = string_of(&p);
    out.append("…");
    out
}


/// A prefix that fits in `budget` bytes has at most `budget` characters.
pub proof fn lemma_prefix_chars(s: Seq<char>, budget: nat)
    ensures
        prefix_within(s, budget).len() <= budget,
    decreases s.len(),
{
    if s.len() > 0 && crate::text::char_len(s[0]) <= budget {
        lemma_prefix_chars(s.drop_first(), (budget - crate::text::char_len(s[0])) as nat);
    }
}

/// A truncated name never shows more than `max` characters.
pub proof fn lemma_truncated_chars(s: Seq<char>, max: nat)
    requires
        max >= 1,
    ensures
        truncated(s, max).len() <= max || truncated(s, max) == s && crate::text::utf8_len(s) <= max,
{
    if crate::text::utf8_len(s) > max {
        lemma_prefix_chars(s, (max - 1) as nat);
        reveal_strlit("…");
        assert("…"@.len() == 1);
    }
}
} // verus!
