//! Format names, file-extension detection and the supported conversions.
use vstd::prelude::*;
use crate::text::{all_ascii, ascii_lower, chars_of, eq_str, has_char, lower_char, string_of, to_lowercase, unicode_lower};

verus! {

/// Recognized document formats.
#[derive(Debug, Clone, PartialEq, Eq)]
pub enum Format {
    Pdf,
    Csv,
    Json,
    Text,
    Unknown(String),
}

/// Whether `n` is one of the names that select a known format.
pub open spec fn known_name(n: Seq<char>) -> bool {
    n == "pdf"@ || n == "csv"@ || n == "json"@ || n == "txt"@ || n == "text"@
}

/// The format that the exact (already lowercased) name `n` selects.
pub open spec fn names(f: Format, n: Seq<char>) -> bool {
    match f {
        Format::Pdf => n == "pdf"@,
        Format::Csv => n == "csv"@,
        Format::Json => n == "json"@,
        Format::Text => n == "txt"@ || n == "text"@,
        Format::Unknown(e) => e@ == n && !known_name(n),
    }
}

/// Canonical extension of a format.
pub open spec fn ext_of(f: Format) -> Seq<char> {
    match f {
        Format::Pdf => "pdf"@,
        Format::Csv => "csv"@,
        Format::Json => "json"@,
        Format::Text => "txt"@,
        Format::Unknown(e) => e@,
    }
}

/// `s` without its leading `.` characters.
pub open spec fn strip_dots(s: Seq<char>) -> Seq<char>
    decreases s.len(),
{
    if s.len() > 0 && s[0] == '.' {
        strip_dots(s.drop_first())
    } else {
        s
    }
}

/// The conversions the tool performs.
pub open spec fn supported(src: Format, dst: Format) -> bool {
    match (src, dst) {
        (Format::Pdf, Format::Text) => true,
        (Format::Pdf, Format::Json) => true,
        (Format::Csv, Format::Json) => true,
        (Format::Json, Format::Csv) => true,
        _ => false,
    }
}

fn strip_leading_dots(v: &Vec<char>) -> (r: Vec<char>)
    ensures
        r@ == strip_dots(v@),
{
    let mut i: usize = 0;
    assert(v@.skip(0) =~= v@);
    while i < v.len() && v[i] == '.'
        invariant
            i <= v.len(),
            strip_dots(v@) == strip_dots(v@.skip(i as int)),
        decreases v.len() - i,
    {
        assert(v@.skip(i as int).drop_first() =~= v@.skip(i + 1));
        i = i + 1;
    }
    assert(v@.skip(0) =~= v@);
    let r = crate::text::slice_of(v, i, v.len());
    assert(r@ =~= v@.skip(i as int));
    r
}

impl Format {
    /// The format selected by an exact, lowercase name: `pdf`, `csv`, `json`,
    /// `txt` or `text`; any other name gives `Unknown` holding the name.
    pub fn from_name(n: &str) -> (f: Format)
        ensures
            names(f, n@),
    {
        let v = chars_of(n);
        if eq_str(&v, "pdf") {
            Format::Pdf
        } else if eq_str(&v, "csv") {
            Format::Csv
        } else if eq_str(&v, "json") {
            Format::Json
        } else if eq_str(&v, "txt") || eq_str(&v, "text") {
            Format::Text
        } else {
            Format::Unknown(n.to_owned())
        }
    }

    /// Parses a format name as given on the command line: lowercased, with
    /// any leading dots removed.
    pub fn from_str(s: &str) -> (f: Format)
        ensures
            names(f, strip_dots(unicode_lower(s@))),
            all_ascii(s@) ==> names(f, strip_dots(ascii_lower(s@))),
    {
        let lowered = to_lowercase(s);
        Self::from_lowercase(lowered.as_str())
    }

    /// The rest of `from_str` once the name is lowercased: leading dots are
    /// dropped and the remainder is looked up.
    pub fn from_lowercase(lowered: &str) -> (f: Format)
        ensures
            names(f, strip_dots(lowered@)),
    {
        let v = chars_of(lowered);
        let body = strip_leading_dots(&v);
        let s = string_of(&body);
        Self::from_name(s.as_str())
    }

    /// Canonical file extension for this format.
    pub fn extension(&self) -> (r: &str)
        ensures
            r@ == ext_of(*self),
    {
        match self {
            Format::Pdf => "pdf",
            Format::Csv => "csv",
            Format::Json => "json",
            Format::Text => "txt",
            Format::Unknown(ext) => ext.as_str(),
        }
    }

    /// Human-readable name, as shown in messages.
    pub fn display_name(&self) -> (r: String)
        ensures
            r@ == (match *self {
                Format::Pdf => "PDF"@,
                Format::Csv => "CSV"@,
                Format::Json => "JSON"@,
                Format::Text => "Text"@,
                Format::Unknown(e) => "Unknown("@ + e@ + ")"@,
            }),
    {
        match self {
            Format::Pdf => "PDF".to_owned(),
            Format::Csv => "CSV".to_owned(),
            Format::Json => "JSON".to_owned(),
            Format::Text => "Text".to_owned(),
            Format::Unknown(ext) => {
                let mut s = "Unknown(".to_owned();
                s.append(ext.as_str());
                s.append(")");
                s
            },
        }
    }
}

// ---------------------------------------------------------------------------
// Path extensions
// ---------------------------------------------------------------------------

/// What `Path::extension` gives for the path, as text.
pub uninterp spec fn std_path_extension(path: Seq<char>) -> Option<Seq<char>>;

/// `Path::new(path).extension()`, taken as text: the part of the file name
/// after its last `.`, which holds no `.` itself.
#[verifier::external_body]
fn path_extension_text(path: &str) -> (r: Option<String>)
    ensures
        match r {
            Some(e) => std_path_extension(path@) == Some(e@) && !crate::text::has_char(e@, '.'),
            None => std_path_extension(path@) is None,
        },
{
    std::path::Path::new(path).extension().and_then(|e| e.to_str()).map(|e| e.to_string())
}

/// The lowercased extension of a path, or empty where it has none.
pub open spec fn detected_name(path: Seq<char>) -> Seq<char> {
    unicode_lower(
        match std_path_extension(path) {
            Some(e) => e,
            None => Seq::empty(),
        },
    )
}

/// Detects the format of a file from the extension of its path, compared
/// without regard to case.
pub fn detect_format(path: &str) -> (f: Format)
    ensures
        names(f, detected_name(path@)),
        match std_path_extension(path@) {
            Some(e) => all_ascii(e) ==> names(f, strip_dots(ascii_lower(e))),
            None => names(f, strip_dots(Seq::empty())),
        },
{
    let ext = match path_extension_text(path) {
        Some(e) => e,
        None => String::new(),
    };
    let lowered = to_lowercase(ext.as_str());
    proof {
        lemma_no_dot_lower(ext@);
        assert(strip_dots(Seq::<char>::empty()) == Seq::<char>::empty());
        assert(all_ascii(Seq::<char>::empty()));
        assert(ascii_lower(Seq::<char>::empty()) =~= Seq::<char>::empty());
    }
    Format::from_name(lowered.as_str())
}

/// ASCII-lowercasing text without a `.` leaves no `.` to strip.
pub proof fn lemma_no_dot_lower(e: Seq<char>)
    requires
        !has_char(e, '.'),
    ensures
        strip_dots(ascii_lower(e)) == ascii_lower(e),
{
    if ascii_lower(e).len() > 0 {
        assert(e[0] != '.');
        assert(ascii_lower(e)[0] == lower_char(e[0]));
    }
}

/// A format's own extension, given to `Format::from_str`, names that format
/// again (for an unknown format, one whose extension is lowercase ASCII
/// without dots and not a known name).
pub proof fn lemma_extension_parses_back(f: Format)
    requires
        f matches Format::Unknown(e) ==> all_ascii(e@) && ascii_lower(e@) == e@ && !has_char(e@, '.')
            && !known_name(e@),
    ensures
        all_ascii(ext_of(f)),
        names(f, strip_dots(ascii_lower(ext_of(f)))),
{
    reveal_strlit("pdf");
    reveal_strlit("csv");
    reveal_strlit("json");
    reveal_strlit("txt");
    let x = ext_of(f);
    assert(ascii_lower(x) =~= x) by {
        assert forall|i: int| 0 <= i < x.len() implies lower_char(x[i]) == x[i] by {}
    }
    lemma_no_dot_lower(x);
}

/// The extension of a path as text, empty where it has none: what
/// `detect_format` hands on to the lookup.
pub open spec fn extension_text(path: Seq<char>) -> Seq<char> {
    match std_path_extension(path) {
        Some(e) => e,
        None => Seq::empty(),
    }
}

/// Two formats are the same: the same variant, and for unknown formats the
/// same text.
pub open spec fn same_format(f: Format, g: Format) -> bool {
    match (f, g) {
        (Format::Unknown(a), Format::Unknown(b)) => a@ == b@,
        _ => f == g,
    }
}

/// A name selects one format only.
pub proof fn lemma_names_determine(n: Seq<char>, f: Format, g: Format)
    requires
        names(f, n),
        names(g, n),
    ensures
        same_format(f, g),
{
    if !(f is Unknown) {
        lemma_names_unique(n, f, g);
    } else if !(g is Unknown) {
        lemma_names_unique(n, g, f);
    }
}

/// Detecting the format of a path agrees with parsing its extension (the
/// empty text where it has none) by `Format::from_str`, for extensions in
/// ASCII: `f` is any result that `detect_format` may give for the path, `g`
/// any that `Format::from_str` may give for the extension.
pub proof fn lemma_detect_agrees_with_from_str(path: Seq<char>, f: Format, g: Format)
    requires
        all_ascii(extension_text(path)),
        match std_path_extension(path) {
            Some(e) => all_ascii(e) ==> names(f, strip_dots(ascii_lower(e))),
            None => names(f, strip_dots(Seq::empty())),
        },
        all_ascii(extension_text(path)) ==> names(g, strip_dots(ascii_lower(extension_text(path)))),
    ensures
        same_format(f, g),
{
    let e = extension_text(path);
    if std_path_extension(path) is None {
        assert(ascii_lower(e) =~= Seq::<char>::empty());
    }
    lemma_names_determine(strip_dots(ascii_lower(e)), f, g);
}

/// Whether a conversion from `src` to `dst` is supported.
pub fn is_supported(src: &Format, dst: &Format) -> (r: bool)
    ensures
        r == supported(*src, *dst),
{
    match (src, dst) {
        (Format::Pdf, Format::Text) => true,
        (Format::Pdf, Format::Json) => true,
        (Format::Csv, Format::Json) => true,
        (Format::Json, Format::Csv) => true,
        _ => false,
    }
}


/// A format's canonical extension names that format again (for an unknown
/// format, as long as its extension is not one of the known names).
pub proof fn lemma_extension_names_format(f: Format)
    requires
        f matches Format::Unknown(e) ==> !known_name(e@),
    ensures
        names(f, ext_of(f)),
{
}

/// A known name selects exactly one format.
pub proof fn lemma_names_unique(n: Seq<char>, f: Format, g: Format)
    requires
        names(f, n),
        names(g, n),
        !(f is Unknown),
    ensures
        f == g,
{
    reveal_strlit("pdf");
    reveal_strlit("csv");
    reveal_strlit("json");
    reveal_strlit("txt");
    reveal_strlit("text");
    assert("pdf"@[0] == 'p' && "csv"@[0] == 'c' && "json"@[0] == 'j' && "txt"@[0] == 't'
        && "text"@[0] == 't');
    assert("txt"@.len() == 3 && "text"@.len() == 4);
}
} // verus!
