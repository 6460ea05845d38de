//! Parsing of the window list printed by the process enumeration.
use vstd::prelude::*;
use crate::text::{chars_of, find_char, lines, lines_vec, split_once, split_once_vec, string_of, trim, trim_vec, views};

verus! {

/// A visible top-level window.
#[derive(Debug, Clone)]
pub struct WindowInfo {
    pub title: String,
    pub process_name: String,
    /// Left edge in screen coordinates (0 when not retrieved).
    pub x: i32,
    /// Top edge in screen coordinates (0 when not retrieved).
    pub y: i32,
    /// Window client width (0 when not retrieved).
    pub width: i32,
    /// Window client height (0 when not retrieved).
    pub height: i32,
    pub is_visible: bool,
}

/// The process name and title of a `ProcessName|PID|Title` line: the line is
/// trimmed and split at its first two `|`; the title (everything after the
/// second `|`, trimmed) must not be empty.
pub open spec fn window_fields(line: Seq<char>) -> Option<(Seq<char>, Seq<char>)> {
    let l = trim(line);
    if l.len() == 0 {
        None
    } else {
        match split_once(l, '|') {
            None => None,
            Some((name, rest)) => match split_once(rest, '|') {
                None => None,
                Some((_pid, title)) => if trim(title).len() == 0 {
                    None
                } else {
                    Some((trim(name), trim(title)))
                },
            },
        }
    }
}

/// Parses a single `ProcessName|PID|Title` line; `None` for a malformed line
/// or an empty title. Titles may themselves hold `|`.
pub fn parse_window_line(line: &str) -> (r: Option<WindowInfo>)
    ensures
        match r {
            Some(w) => window_fields(line@) == Some((w.process_name@, w.title@)) && w.x == 0
                && w.y == 0 && w.width == 0 && w.height == 0 && w.is_visible,
            None => window_fields(line@) is None,
        },
{
    let v = chars_of(line);
    let l = trim_vec(&v);
    if l.len() == 0 {
        return None;
    }
    match split_once_vec(&l, '|') {
        None => None,
        Some((name, rest)) => match split_once_vec(&rest, '|') {
            None => None,
            Some((_pid, title)) => {
                let t = trim_vec(&title);
                if t.len() == 0 {
                    None
                } else {
                    let n = trim_vec(&name);
                    Some(
                        WindowInfo {
                            title: string_of(&t),
                            process_name: string_of(&n),
                            x: 0,
                            y: 0,
                            width: 0,
                            height: 0,
                            is_visible: true,
                        },
                    )
                }
            },
        },
    }
}

pub open spec fn window_views(ws: Seq<WindowInfo>) -> Seq<(Seq<char>, Seq<char>)> {
    ws.map_values(|w: WindowInfo| (w.process_name@, w.title@))
}

/// The windows of the given lines, in order, malformed lines skipped.
pub open spec fn windows_of(ls: Seq<Seq<char>>) -> Seq<(Seq<char>, Seq<char>)>
    decreases ls.len(),
{
    if ls.len() == 0 {
        Seq::empty()
    } else {
        let prev = windows_of(ls.drop_last());
        match window_fields(ls.last()) {
            Some(f) => prev.push(f),
            None => prev,
        }
    }
}

/// The windows listed in the enumeration output, one per well-formed line.
pub fn parse_window_list(output: &str) -> (r: Vec<WindowInfo>)
    ensures
        window_views(r@) == windows_of(lines(output@)),
{
    let v = chars_of(output);
    let ls = lines_vec(&v);
    let ghost lv = views(ls@);
    let mut out: Vec<WindowInfo> = Vec::new();
    let mut i: usize = 0;
    assert(lv.take(0) =~= Seq::<Seq<char>>::empty());
    while i < ls.len()
        invariant
            i <= ls.len(),
            lv == views(ls@),
            window_views(out@) == windows_of(lv.take(i as int)),
        decreases ls.len() - i,
    {
        let ghost t = lv.take(i + 1);
        assert(t.drop_last() =~= lv.take(i as int));
        assert(t.last() == ls@[i as int]@);
        let s = string_of(&ls[i]);
        match parse_window_line(s.as_str()) {
            Some(w) => {
                let ghost before = window_views(out@);
                out.push(w);
                assert(window_views(out@) =~= before.push(window_fields(ls@[i as int]@)->Some_0));
            },
            None => {},
        }
        i = i + 1;
    }
    assert(lv.take(ls.len() as int) =~= lv);
    out
}

} // verus!
