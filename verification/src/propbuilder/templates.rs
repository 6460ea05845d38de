//! Text prepared for PDF string literals.
use vstd::prelude::*;
use crate::text::{
    chars_of, concat_vec, is_ascii, split_ws, split_ws_vec, str_views, string_of, strings_of, utf8_len,
    utf8_len_gt, views,
};

verus! {

/// PDF-safe form of text: non-ASCII characters dropped, backslashes and
/// parentheses escaped.
pub open spec fn pdf_safe(s: Seq<char>) -> Seq<char>
    decreases s.len(),
{
    if s.len() == 0 {
        Seq::empty()
    } else {
        let c = s.last();
        pdf_safe(s.drop_last()) + if !is_ascii(c) {
            Seq::<char>::empty()
        } else if c == '(' || c == ')' || c == '\\' {
            seq!['\\', c]
        } else {
            seq![c]
        }
    }
}

/// Makes text safe for a PDF string literal.
pub fn safe_pdf_string(s: &str) -> (r: String)
    ensures
        r@ == pdf_safe(s@),
{
    let v = chars_of(s);
    let mut out: Vec<char> = Vec::new();
    let mut i: usize = 0;
    while i < v.len()
        invariant
            i <= v.len(),
            out@ == pdf_safe(v@.take(i as int)),
        decreases v.len() - i,
    {
        let ghost t = v@.take(i + 1);
        assert(t.drop_last() =~= v@.take(i as int));
        let c = v[i];
        if (c as u32) < 128 {
            if c == '(' || c == ')' || c == '\\' {
                out.push('\\');
            }
            out.push(c);
        }
        assert(out@ =~= pdf_safe(t));
        i = i + 1;
    }
    assert(v@.take(v.len() as int) =~= v@);
    string_of(&out)
}

/// PDF-safe text is ASCII throughout.
pub proof fn lemma_pdf_safe_ascii(s: Seq<char>)
    ensures
        forall|i: int| 0 <= i < pdf_safe(s).len() ==> is_ascii(#[trigger] pdf_safe(s)[i]),
    decreases s.len(),
{
    if s.len() > 0 {
        lemma_pdf_safe_ascii(s.drop_last());
        let p = pdf_safe(s.drop_last());
        assert forall|i: int| 0 <= i < pdf_safe(s).len() implies is_ascii(#[trigger] pdf_safe(s)[i]) by {
            if i < p.len() {
                assert(pdf_safe(s)[i] == p[i]);
            }
        }
    }
}


/// Greedy word wrap, word by word: the finished lines and the line being
/// filled. A word joins the current line (after a space) while the joined
/// line takes at most `width` bytes; otherwise the current line is finished
/// and the word starts the next.
pub open spec fn wrap_state(words: Seq<Seq<char>>, width: nat) -> (Seq<Seq<char>>, Seq<char>)
    decreases words.len(),
{
    if words.len() == 0 {
        (Seq::empty(), Seq::empty())
    } else {
        let (done, cur) = wrap_state(words.drop_last(), width);
        let w = words.last();
        let candidate = if cur.len() == 0 {
            w
        } else {
            cur + seq![' '] + w
        };
        if utf8_len(candidate) <= width {
            (done, candidate)
        } else {
            (
                if cur.len() > 0 {
                    done.push(cur)
                } else {
                    done
                },
                w,
            )
        }
    }
}

/// The lines `text` wraps into at `width` bytes per line.
pub open spec fn wrapped(text: Seq<char>, width: nat) -> Seq<Seq<char>> {
    let (done, cur) = wrap_state(split_ws(text), width);
    if cur.len() > 0 {
        done.push(cur)
    } else {
        done
    }
}

/// Wraps `text` into lines of at most `width` bytes where its words allow,
/// breaking only between words; a longer word stands on a line of its own.
pub fn wrap_words(text: &str, width: usize) -> (r: Vec<String>)
    requires
        width <= usize::MAX - 4,
    ensures
        str_views(r@) == wrapped(text@, width as nat),
{
    let words = split_ws_vec(&chars_of(text));
    let mut done: Vec<Vec<char>> = Vec::new();
    let mut cur: Vec<char> = Vec::new();
    let mut i: usize = 0;
    while i < words.len()
        invariant
            i <= words.len(),
            width <= usize::MAX - 4,
            (views(done@), cur@) == wrap_state(views(words@).take(i as int), width as nat),
        decreases words.len() - i,
    {
        let ghost t = views(words@).take(i + 1);
        assert(t.drop_last() =~= views(words@).take(i as int));
        assert(t.last() == words@[i as int]@);
        let candidate = if cur.len() == 0 {
            let w = words[i].clone();
            assert(w@ =~= words@[i as int]@);
            w
        } else {
            let mut c = cur.clone();
            assert(c@ =~= cur@);
            c.push(' ');
            concat_vec(&c, &words[i])
        };
        assert(candidate@ =~= (if cur@.len() == 0 {
            t.last()
        } else {
            cur@ + seq![' '] + t.last()
        }));
        if !utf8_len_gt(&candidate, width) {
            cur = candidate;
        } else {
            if cur.len() > 0 {
                let ghost before = views(done@);
                let ghost finished = cur@;
                done.push(cur);
                assert(views(done@) =~= before.push(finished));
            }
            let w = words[i].clone();
            assert(w@ =~= words@[i as int]@);
            cur = w;
        }
        i = i + 1;
    }
    assert(views(words@).take(words.len() as int) =~= views(words@));
    if cur.len() > 0 {
        let ghost before = views(done@);
        let ghost finished = cur@;
        done.push(cur);
        assert(views(done@) =~= before.push(finished));
    }
    strings_of(&done)
}

} // verus!
