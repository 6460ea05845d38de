//! Escaping of text placed in a PDF string literal.
use vstd::prelude::*;
use crate::text::{chars_of, string_of};

verus! {

/// PDF string-literal form of one character: backslash and parentheses are
/// escaped with a backslash.
pub open spec fn pdf_char(c: char) -> Seq<char> {
    if c == '\\' || c == '(' || c == ')' {
        seq!['\\', c]
    } else {
        seq![c]
    }
}

/// `s` with backslashes and parentheses escaped.
pub open spec fn pdf_escaped(s: Seq<char>) -> Seq<char>
    decreases s.len(),
{
    if s.len() == 0 {
        Seq::empty()
    } else {
        pdf_escaped(s.drop_last()) + pdf_char(s.last())
    }
}

/// Escapes backslashes and parentheses for a PDF string literal.
pub fn escape_pdf(s: &str) -> (r: String)
    ensures
        r@ == pdf_escaped(s@),
{
    let v = chars_of(s);
    let mut out: Vec<char> = Vec::new();
    let mut i: usize = 0;
    while i < v.len()
        invariant
            i <= v.len(),
            out@ == pdf_escaped(v@.take(i as int)),
        decreases v.len() - i,
    {
        let ghost t = v@.take(i + 1);
        assert(t.drop_last() =~= v@.take(i as int));
        let c = v[i];
        if c == '\\' || c == '(' || c == ')' {
            out.push('\\');
        }
        out.push(c);
        assert(out@ =~= pdf_escaped(t));
        i = i + 1;
    }
    assert(v@.take(v.len() as int) =~= v@);
    string_of(&out)
}

/// Escaped text holds no parenthesis that is not preceded by a backslash.
pub proof fn lemma_pdf_escaped_parens(s: Seq<char>)
    ensures
        forall|i: int|
            0 <= i < pdf_escaped(s).len() && (#[trigger] pdf_escaped(s)[i] == '(' || pdf_escaped(s)[i] == ')')
                ==> i > 0 && pdf_escaped(s)[i - 1] == '\\',
    decreases s.len(),
{
    if s.len() > 0 {
        lemma_pdf_escaped_parens(s.drop_last());
        let p = pdf_escaped(s.drop_last());
        assert forall|i: int|
            0 <= i < pdf_escaped(s).len() && (#[trigger] pdf_escaped(s)[i] == '(' || pdf_escaped(s)[i] == ')')
                implies i > 0 && pdf_escaped(s)[i - 1] == '\\' by {
            if i < p.len() {
                assert(pdf_escaped(s)[i] == p[i]);
                assert(pdf_escaped(s)[i - 1] == p[i - 1]);
            }
        }
    }
}

} // verus!
