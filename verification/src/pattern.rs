//! Regular-expression matching through the `regex` crate, and lossy UTF-8
//! decoding.
use vstd::prelude::*;

verus! {

#[verifier::external_type_specification]
#[verifier::external_body]
pub struct ExRegex(regex::Regex);

/// Whether `regex` accepts `pattern` as a regular expression.
pub uninterp spec fn regex_compiles(pattern: Seq<char>) -> bool;

/// Whether the regular expression `pattern` matches somewhere in `text`.
pub uninterp spec fn regex_is_match(pattern: Seq<char>, text: Seq<char>) -> bool;

/// The texts of the successive non-overlapping matches of `pattern` in
/// `text`, leftmost first.
pub uninterp spec fn regex_find_all(pattern: Seq<char>, text: Seq<char>) -> Seq<Seq<char>>;

/// For the leftmost-first match of `pattern` in `text`, if there is one, the
/// text of its first capture group where that group took part in the match.
pub uninterp spec fn regex_first_group(pattern: Seq<char>, text: Seq<char>) -> Option<Option<Seq<char>>>;

/// What `String::from_utf8_lossy` decodes from `bytes`.
pub uninterp spec fn utf8_lossy(bytes: Seq<u8>) -> Seq<char>;

/// Characters that have a meaning in a regular expression.
pub open spec fn is_meta(c: char) -> bool {
    c == '\\' || c == '.' || c == '+' || c == '*' || c == '?' || c == '(' || c == ')' || c == '|'
        || c == '[' || c == ']' || c == '{' || c == '}' || c == '^' || c == '$' || c == '#'
        || c == '&' || c == '-' || c == '~'
}

/// `s` with a backslash before each meta character.
pub open spec fn escape_regex(s: Seq<char>) -> Seq<char>
    decreases s.len(),
{
    if s.len() == 0 {
        Seq::empty()
    } else {
        escape_regex(s.drop_last()) + (if is_meta(s.last()) {
            seq!['\\', s.last()]
        } else {
            seq![s.last()]
        })
    }
}

/// A compiled regular expression together with the pattern it was compiled
/// from.
pub struct Matcher {
    pattern: String,
    re: regex::Regex,
}

impl Matcher {
    /// The pattern this matcher was compiled from.
    pub closed spec fn pattern(&self) -> Seq<char> {
        self.pattern@
    }
}

/// Compiles `pattern` with `regex::Regex::new`; `None` where the crate
/// refuses it.
#[verifier::external_body]
pub(crate) fn compile(pattern: &str) -> (r: Option<Matcher>)
    ensures
        r is Some <==> regex_compiles(pattern@),
        r matches Some(m) ==> m.pattern() == pattern@,
{
    match regex::Regex::new(pattern) {
        Ok(re) => Some(Matcher { pattern: pattern.to_string(), re }),
        Err(_) => None,
    }
}

/// `Regex::is_match`: whether the matcher's pattern matches in `text`.
#[verifier::external_body]
pub(crate) fn is_match(m: &Matcher, text: &str) -> (r: bool)
    ensures
        r == regex_is_match(m.pattern(), text@),
{
    m.re.is_match(text)
}

/// `Regex::find_iter`: the texts of all matches, in order.
#[verifier::external_body]
pub(crate) fn find_all(m: &Matcher, text: &str) -> (r: Vec<String>)
    ensures
        r@.map_values(|s: String| s@) == regex_find_all(m.pattern(), text@),
{
    m.re.find_iter(text).map(|x| x.as_str().to_string()).collect()
}

/// `Regex::captures` followed by `Captures::get(1)`: for the first match,
/// the text of capture group 1 where it took part.
#[verifier::external_body]
pub(crate) fn first_group(m: &Matcher, text: &str) -> (r: Option<Option<String>>)
    ensures
        match r {
            None => regex_first_group(m.pattern(), text@) is None,
            Some(None) => regex_first_group(m.pattern(), text@) == Some(None::<Seq<char>>),
            Some(Some(g)) => regex_first_group(m.pattern(), text@) == Some(Some(g@)),
        },
{
    m.re.captures(text).map(|c| c.get(1).map(|g| g.as_str().to_string()))
}

/// `regex::escape`: a backslash is put before every meta character
/// (`\ . + * ? ( ) | [ ] { } ^ $ # & - ~`), other characters are kept.
#[verifier::external_body]
pub(crate) fn escape(s: &str) -> (r: String)
    ensures
        r@ == escape_regex(s@),
{
    regex::escape(s)
}

/// `String::from_utf8_lossy`: decodes `bytes`, replacing each invalid
/// sequence with U+FFFD.
#[verifier::external_body]
pub(crate) fn decode_lossy(bytes: &Vec<u8>) -> (r: String)
    ensures
        r@ == utf8_lossy(bytes@),
{
    String::from_utf8_lossy(bytes.as_slice()).into_owned()
}

} // verus!
