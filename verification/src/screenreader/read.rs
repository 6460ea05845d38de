//! The text read from the screen: window titles, focused window and focused
//! element, as reported by the UI queries.
use vstd::prelude::*;
use crate::text::{chars_of, lines, lines_vec, str_views, string_of, strings_of, trim, trim_vec, views};

verus! {

/// Text visible on the screen.
#[derive(Debug, Clone)]
pub struct ScreenText {
    /// Titles of all visible top-level windows.
    pub window_titles: Vec<String>,
    /// Text of the currently focused UI element (best-effort).
    pub focused_element: Option<String>,
    /// Title of the window that currently has keyboard focus.
    pub focused_window: Option<String>,
}

/// The trimmed, non-empty lines of `s`, in order.
pub open spec fn filled_lines(s: Seq<char>) -> Seq<Seq<char>> {
    trimmed_non_empty(lines(s))
}

pub open spec fn trimmed_non_empty(ls: Seq<Seq<char>>) -> Seq<Seq<char>>
    decreases ls.len(),
{
    if ls.len() == 0 {
        Seq::empty()
    } else {
        let prev = trimmed_non_empty(ls.drop_last());
        if trim(ls.last()).len() > 0 {
            prev.push(trim(ls.last()))
        } else {
            prev
        }
    }
}

fn filled_lines_vec(s: &str) -> (r: Vec<Vec<char>>)
    ensures
        views(r@) == filled_lines(s@),
{
    let v = chars_of(s);
    let ls = lines_vec(&v);
    let ghost lv = views(ls@);
    let mut out: Vec<Vec<char>> = Vec::new();
    let mut i: usize = 0;
    assert(lv.take(0) =~= Seq::<Seq<char>>::empty());
    while i < ls.len()
        invariant
            i <= ls.len(),
            lv == views(ls@),
            views(out@) == trimmed_non_empty(lv.take(i as int)),
        decreases ls.len() - i,
    {
        let ghost t = lv.take(i + 1);
        assert(t.drop_last() =~= lv.take(i as int));
        assert(t.last() == ls@[i as int]@);
        let l = trim_vec(&ls[i]);
        if l.len() > 0 {
            let ghost before = views(out@);
            out.push(l);
            assert(views(out@) =~= before.push(trim(ls@[i as int]@)));
        }
        i = i + 1;
    }
    assert(lv.take(ls.len() as int) =~= lv);
    out
}

pub open spec fn opt_str(o: Option<String>) -> Option<Seq<char>> {
    match o {
        Some(s) => Some(s@),
        None => None,
    }
}

/// Builds the screen text from the output of the window-title query and of
/// the focus query (`None` where a query failed): every trimmed non-empty
/// line of the first is a title; the first two trimmed non-empty lines of the
/// second are the focused window's title and the focused element's text.
pub fn read_screen(titles_output: Option<&str>, focus_output: Option<&str>) -> (r: ScreenText)
    ensures
        str_views(r.window_titles@) == (match titles_output {
            Some(o) => filled_lines(o@),
            None => Seq::empty(),
        }),
        opt_str(r.focused_window) == (match focus_output {
            Some(o) => if filled_lines(o@).len() > 0 {
                Some(filled_lines(o@)[0])
            } else {
                None
            },
            None => None,
        }),
        opt_str(r.focused_element) == (match focus_output {
            Some(o) => if filled_lines(o@).len() > 1 {
                Some(filled_lines(o@)[1])
            } else {
                None
            },
            None => None,
        }),
{
    let window_titles = match titles_output {
        Some(o) => strings_of(&filled_lines_vec(o)),
        None => {
            let w: Vec<String> = Vec::new();
            assert(str_views(w@) =~= Seq::<Seq<char>>::empty());
            w
        },
    };
    let (focused_window, focused_element) = match focus_output {
        Some(o) => {
            let ls = filled_lines_vec(o);
            let w = if ls.len() > 0 {
                Some(string_of(&ls[0]))
            } else {
                None
            };
            let e = if ls.len() > 1 {
                Some(string_of(&ls[1]))
            } else {
                None
            };
            (w, e)
        },
        None => (None, None),
    };
    ScreenText { window_titles, focused_element, focused_window }
}

} // verus!
