//! Text literals of a PDF content stream: the parenthesised strings, with
//! nesting and backslash escapes, and whether each is shown by `Tj`.
use vstd::prelude::*;
use crate::text::{chars_of, is_ws, lemma_trim_start_skip, skip_ws_from, starts_with, trim, trim_start, trim_vec};

verus! {

/// Where the literal whose text starts at `start` closes, reading on from
/// `j` at nesting depth `depth`: an unescaped `(` opens a level, an
/// unescaped `)` closes one; a character right after a backslash (other
/// than the first) is escaped. `None` where the text ends first.
pub open spec fn close_from(s: Seq<char>, start: int, j: int, depth: nat) -> Option<int>
    decreases s.len() - j,
{
    if j < 0 || j >= s.len() {
        None
    } else {
        let escaped = j != start && s[j - 1] == '\\';
        let d: int = if s[j] == '(' && !escaped {
            depth + 1int
        } else if s[j] == ')' && !escaped {
            depth - 1
        } else {
            depth as int
        };
        if d == 0 {
            Some(j)
        } else {
            close_from(s, start, j + 1, d as nat)
        }
    }
}

/// The literals of `s` from position `i` on, as the positions of their
/// opening and closing parentheses: scanning skips over each closed
/// literal, and moves on by one character past an unclosed `(`.
pub open spec fn literals_from(s: Seq<char>, i: int) -> Seq<(int, int)>
    decreases s.len() - i,
{
    if i < 0 || i >= s.len() {
        Seq::empty()
    } else if s[i] == '(' && close_from(s, i + 1, i + 1, 1) is Some {
        let j = close_from(s, i + 1, i + 1, 1)->Some_0;
        if i < j + 1 && j < s.len() {
            seq![(i, j)] + literals_from(s, j + 1)
        } else {
            Seq::empty()
        }
    } else {
        literals_from(s, i + 1)
    }
}

proof fn lemma_close_after(s: Seq<char>, start: int, j: int, depth: nat)
    ensures
        close_from(s, start, j, depth) matches Some(k) ==> j <= k < s.len(),
    decreases s.len() - j,
{
    if 0 <= j < s.len() {
        let escaped = j != start && s[j - 1] == '\\';
        let d: int = if s[j] == '(' && !escaped {
            depth + 1int
        } else if s[j] == ')' && !escaped {
            depth - 1
        } else {
            depth as int
        };
        if d != 0 {
            lemma_close_after(s, start, j + 1, d as nat);
        }
    }
}

/// Whether the literal between the parentheses at `open` and `close` is
/// shown: `Tj` follows it (after white space) and its text is not blank.
pub open spec fn shown(s: Seq<char>, open: int, close: int) -> bool {
    starts_with(trim_start(s.skip(close + 1)), seq!['T', 'j']) && trim(s.subrange(open + 1, close)).len() > 0
}

fn close_exec(v: &Vec<char>, start: usize) -> (r: Option<usize>)
    requires
        1 <= start <= v.len(),
    ensures
        r matches Some(k) ==> close_from(v@, start as int, start as int, 1) == Some(k as int),
        r is None ==> close_from(v@, start as int, start as int, 1) is None,
{
    let mut j = start;
    let mut depth: usize = 1;
    while j < v.len()
        invariant
            1 <= start <= j <= v.len(),
            1 <= depth <= j - start + 1,
            close_from(v@, start as int, start as int, 1) == close_from(v@, start as int, j as int, depth as nat),
        decreases v.len() - j,
    {
        let escaped = j != start && v[j - 1] == '\\';
        if v[j] == '(' && !escaped {
            depth = depth + 1;
        } else if v[j] == ')' && !escaped {
            depth = depth - 1;
        }
        if depth == 0 {
            return Some(j);
        }
        j = j + 1;
    }
    None
}

fn shown_exec(v: &Vec<char>, open: usize, close: usize) -> (r: bool)
    requires
        open < close < v.len(),
    ensures
        r == shown(v@, open as int, close as int),
{
    let k = skip_ws_from(v, close + 1);
    proof {
        let rest = v@.skip(close + 1);
        assert forall|j: int| 0 <= j < k - (close + 1) implies is_ws(#[trigger] rest[j]) by {
            assert(rest[j] == v@[close + 1 + j]);
        }
        lemma_trim_start_skip(rest, k - (close + 1));
        assert(rest.skip(k - (close + 1)) =~= v@.skip(k as int));
        if k < v.len() {
            assert(!is_ws(v@.skip(k as int)[0]));
        } else {
            assert(v@.skip(k as int).len() == 0);
        }
        assert(trim_start(rest) == v@.skip(k as int));
    }
    let tj = k < v.len() && k + 1 < v.len() && v[k] == 'T' && v[k + 1] == 'j';
    assert(tj == starts_with(v@.skip(k as int), seq!['T', 'j'])) by {
        if k + 1 < v.len() {
            assert(v@.skip(k as int).take(2) =~= seq![v@[k as int], v@[k + 1]]);
            if tj {
                assert(v@.skip(k as int).take(2) =~= seq!['T', 'j']);
            }
        }
    }
    let text = crate::text::slice_of(v, open + 1, close);
    let t = trim_vec(&text);
    tj && t.len() > 0
}

/// The text literals of a content stream, in order: the positions of the
/// opening and closing parentheses, and whether `Tj` shows the literal.
pub fn text_literals(content: &str) -> (r: Vec<(usize, usize, bool)>)
    ensures
        r@.len() == literals_from(content@, 0).len(),
        forall|k: int|
            0 <= k < r@.len() ==> (#[trigger] r@[k]).0 as int == literals_from(content@, 0)[k].0
                && r@[k].1 as int == literals_from(content@, 0)[k].1 && r@[k].2 == shown(
                content@,
                r@[k].0 as int,
                r@[k].1 as int,
            ),
{
    let v = chars_of(content);
    let ghost s = v@;
    let mut out: Vec<(usize, usize, bool)> = Vec::new();
    let mut i: usize = 0;
    let ghost mut seen: Seq<(int, int)> = Seq::empty();
    while i < v.len()
        invariant
            i <= v.len(),
            s == v@,
            s == content@,
            literals_from(s, 0) == seen + literals_from(s, i as int),
            out@.len() == seen.len(),
            forall|k: int|
                0 <= k < out@.len() ==> (#[trigger] out@[k]).0 as int == seen[k].0 && out@[k].1 as int
                    == seen[k].1 && seen[k].0 < seen[k].1 < s.len() && out@[k].2 == shown(
                    s,
                    out@[k].0 as int,
                    out@[k].1 as int,
                ),
        decreases v.len() - i,
    {
        if v[i] == '(' {
            match close_exec(&v, i + 1) {
                Some(j) => {
                    proof {
                        lemma_close_after(s, i + 1, i + 1, 1);
                    }
                    let sh = shown_exec(&v, i, j);
                    out.push((i, j, sh));
                    proof {
                        assert(literals_from(s, i as int) == seq![(i as int, j as int)] + literals_from(
                            s,
                            j + 1,
                        ));
                        seen = seen.push((i as int, j as int));
                    }
                    i = j + 1;
                },
                None => {
                    i = i + 1;
                },
            }
        } else {
            i = i + 1;
        }
    }
    proof {
        assert(literals_from(s, i as int) =~= Seq::<(int, int)>::empty());
        assert(seen + Seq::<(int, int)>::empty() =~= seen);
    }
    out
}

} // verus!
