//! Plain-text rendering of drafts and the file names they are saved under.
//! Drafts are only ever rendered and saved, never sent.
use vstd::prelude::*;
use crate::mailcraft::templates::EmailDraft;
use crate::text::{chars_of, string_of};

verus! {

/// A line of 72 dashes.
pub open spec fn rule72() -> Seq<char> {
    Seq::new(72, |i: int| '-')
}

/// Plain-text form of a draft: recipient, subject, a rule, a blank line,
/// then the body and a final newline.
pub open spec fn composed(d: EmailDraft) -> Seq<char> {
    "TO:      "@ + d.to@ + "\n"@ + "SUBJECT: "@ + d.subject@ + "\n"@ + rule72() + "\n"@ + "\n"@ + d.body@
        + "\n"@
}

/// Composes the final plain-text representation of a draft.
pub fn compose(draft: &EmailDraft) -> (r: String)
    ensures
        r@ == composed(*draft),
{
    let mut rule: Vec<char> = Vec::new();
    while rule.len() < 72
        invariant
            rule.len() <= 72,
            forall|i: int| 0 <= i < rule.len() ==> rule@[i] == '-',
        decreases 72 - rule.len(),
    {
        rule.push('-');
    }
    assert(rule@ =~= rule72());
    let mut out = "TO:      ".to_owned();
    out.append(draft.to.as_str());
    out.append("\n");
    out.append("SUBJECT: ");
    out.append(draft.subject.as_str());
    out.append("\n");
    out.append(string_of(&rule).as_str());
    out.append("\n");
    out.append("\n");
    out.append(draft.body.as_str());
    out.append("\n");
    out
}

/// Characters that are unsafe in file names.
pub open spec fn unsafe_in_name(c: char) -> bool {
    c == '/' || c == '\\' || c == ':' || c == '*' || c == '?' || c == '"' || c == '<' || c == '>'
        || c == '|' || c == ' '
}

/// `s` with each unsafe character replaced by `_`.
pub open spec fn sanitized(s: Seq<char>) -> Seq<char> {
    Seq::new(s.len(), |i: int| if unsafe_in_name(s[i]) { '_' } else { s[i] })
}

/// Replaces the characters that are unsafe in file names by `_`.
pub fn sanitize(s: &str) -> (r: String)
    ensures
        r@ == sanitized(s@),
{
    let v = chars_of(s);
    let mut out: Vec<char> = Vec::new();
    let mut i: usize = 0;
    while i < v.len()
        invariant
            i <= v.len(),
            out@ == sanitized(v@.take(i as int)),
        decreases v.len() - i,
    {
        let c = v[i];
        let d = if c == '/' || c == '\\' || c == ':' || c == '*' || c == '?' || c == '"' || c == '<'
            || c == '>' || c == '|' || c == ' ' {
            '_'
        } else {
            c
        };
        out.push(d);
        assert(out@ =~= sanitized(v@.take(i + 1)));
        i = i + 1;
    }
    assert(v@.take(v.len() as int) =~= v@);
    string_of(&out)
}

/// A sanitized name holds no unsafe character and keeps its length.
pub proof fn lemma_sanitized_safe(s: Seq<char>)
    ensures
        sanitized(s).len() == s.len(),
        forall|i: int| 0 <= i < s.len() ==> !unsafe_in_name(#[trigger] sanitized(s)[i]),
{
}

/// File name a draft is saved under: `<identifier>_<email type>.txt`, both
/// sanitized.
pub fn draft_file_name(identifier: &str, email_type: &str) -> (r: String)
    ensures
        r@ == sanitized(identifier@) + "_"@ + sanitized(email_type@) + ".txt"@,
{
    let mut s = sanitize(identifier);
    s.append("_");
    s.append(sanitize(email_type).as_str());
    s.append(".txt");
    s
}

} // verus!
