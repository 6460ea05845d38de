//! Fitting text into the invoice layout.
use vstd::prelude::*;
use crate::text::{chars_of, prefix_within, string_of, take_bytes};

verus! {

/// Cuts `s` to at most `max_chars` bytes, at a character boundary.
pub fn truncate(s: &str, max_chars: usize) -> (r: String)
    ensures
        r@ == prefix_within(s@, max_chars as nat),
{
    let v = chars_of(s);
    string_of(&take_bytes(&v, max_chars))
}

/// A cut text is a prefix of the original that fits the limit.
pub proof fn lemma_prefix_within(s: Seq<char>, budget: nat)
    ensures
        crate::text::utf8_len(prefix_within(s, budget)) <= budget,
        prefix_within(s, budget).len() <= s.len(),
        prefix_within(s, budget) == s.take(prefix_within(s, budget).len() as int),
    decreases s.len(),
{
    if s.len() > 0 && crate::text::char_len(s[0]) <= budget {
        let rest = prefix_within(s.drop_first(), (budget - crate::text::char_len(s[0])) as nat);
        lemma_prefix_within(s.drop_first(), (budget - crate::text::char_len(s[0])) as nat);
        lemma_utf8_len_cons(s[0], rest);
        assert(s.take(rest.len() + 1 as int) =~= seq![s[0]] + s.drop_first().take(rest.len() as int));
    } else {
        assert(s.take(0) =~= Seq::<char>::empty());
    }
}

/// The UTF-8 length of `c` followed by `s`.
pub proof fn lemma_utf8_len_cons(c: char, s: Seq<char>)
    ensures
        crate::text::utf8_len(seq![c] + s) == crate::text::char_len(c) + crate::text::utf8_len(s),
    decreases s.len(),
{
    if s.len() > 0 {
        lemma_utf8_len_cons(c, s.drop_last());
        assert((seq![c] + s).drop_last() =~= seq![c] + s.drop_last());
        assert((seq![c] + s).last() == s.last());
    } else {
        assert(seq![c] + s =~= seq![c]);
        assert(seq![c].drop_last() =~= Seq::<char>::empty());
        assert(seq![c].last() == c);
        assert(crate::text::utf8_len(Seq::<char>::empty()) == 0);
    }
}

} // verus!
