//! Human-readable key combos (`ctrl+s`, `alt+tab`) in SendKeys notation.
use vstd::prelude::*;
use crate::text::{chars_of, eq_str, split_char, split_vec, string_of, to_lowercase, trim, trim_vec, unicode_lower, views, all_ascii, ascii_lower};

verus! {

/// SendKeys notation of a key name: named keys in braces (`{TAB}`,
/// `{F5}`, ...), `space` as a space, anything else passed through.
pub open spec fn key_notation(k: Seq<char>) -> Seq<char> {
    if k == "tab"@ {
        "{TAB}"@
    } else if k == "enter"@ {
        "{ENTER}"@
    } else if k == "return"@ {
        "{ENTER}"@
    } else if k == "esc"@ {
        "{ESC}"@
    } else if k == "escape"@ {
        "{ESC}"@
    } else if k == "space"@ {
        " "@
    } else if k == "backspace"@ {
        "{BACKSPACE}"@
    } else if k == "bs"@ {
        "{BACKSPACE}"@
    } else if k == "delete"@ {
        "{DELETE}"@
    } else if k == "del"@ {
        "{DELETE}"@
    } else if k == "home"@ {
        "{HOME}"@
    } else if k == "end"@ {
        "{END}"@
    } else if k == "pageup"@ {
        "{PGUP}"@
    } else if k == "pgup"@ {
        "{PGUP}"@
    } else if k == "pagedown"@ {
        "{PGDN}"@
    } else if k == "pgdn"@ {
        "{PGDN}"@
    } else if k == "up"@ {
        "{UP}"@
    } else if k == "down"@ {
        "{DOWN}"@
    } else if k == "left"@ {
        "{LEFT}"@
    } else if k == "right"@ {
        "{RIGHT}"@
    } else if k == "f1"@ {
        "{F1}"@
    } else if k == "f2"@ {
        "{F2}"@
    } else if k == "f3"@ {
        "{F3}"@
    } else if k == "f4"@ {
        "{F4}"@
    } else if k == "f5"@ {
        "{F5}"@
    } else if k == "f6"@ {
        "{F6}"@
    } else if k == "f7"@ {
        "{F7}"@
    } else if k == "f8"@ {
        "{F8}"@
    } else if k == "f9"@ {
        "{F9}"@
    } else if k == "f10"@ {
        "{F10}"@
    } else if k == "f11"@ {
        "{F11}"@
    } else if k == "f12"@ {
        "{F12}"@
    } else {
        k
    }
}

/// Converts a key name to SendKeys notation.
pub fn named_key(k: &str) -> (r: String)
    ensures
        r@ == key_notation(k@),
{
    let v = chars_of(k);
    if eq_str(&v, "tab") {
        "{TAB}".to_owned()
    } else if eq_str(&v, "enter") {
        "{ENTER}".to_owned()
    } else if eq_str(&v, "return") {
        "{ENTER}".to_owned()
    } else if eq_str(&v, "esc") {
        "{ESC}".to_owned()
    } else if eq_str(&v, "escape") {
        "{ESC}".to_owned()
    } else if eq_str(&v, "space") {
        " ".to_owned()
    } else if eq_str(&v, "backspace") {
        "{BACKSPACE}".to_owned()
    } else if eq_str(&v, "bs") {
        "{BACKSPACE}".to_owned()
    } else if eq_str(&v, "delete") {
        "{DELETE}".to_owned()
    } else if eq_str(&v, "del") {
        "{DELETE}".to_owned()
    } else if eq_str(&v, "home") {
        "{HOME}".to_owned()
    } else if eq_str(&v, "end") {
        "{END}".to_owned()
    } else if eq_str(&v, "pageup") {
        "{PGUP}".to_owned()
    } else if eq_str(&v, "pgup") {
        "{PGUP}".to_owned()
    } else if eq_str(&v, "pagedown") {
        "{PGDN}".to_owned()
    } else if eq_str(&v, "pgdn") {
        "{PGDN}".to_owned()
    } else if eq_str(&v, "up") {
        "{UP}".to_owned()
    } else if eq_str(&v, "down") {
        "{DOWN}".to_owned()
    } else if eq_str(&v, "left") {
        "{LEFT}".to_owned()
    } else if eq_str(&v, "right") {
        "{RIGHT}".to_owned()
    } else if eq_str(&v, "f1") {
        "{F1}".to_owned()
    } else if eq_str(&v, "f2") {
        "{F2}".to_owned()
    } else if eq_str(&v, "f3") {
        "{F3}".to_owned()
    } else if eq_str(&v, "f4") {
        "{F4}".to_owned()
    } else if eq_str(&v, "f5") {
        "{F5}".to_owned()
    } else if eq_str(&v, "f6") {
        "{F6}".to_owned()
    } else if eq_str(&v, "f7") {
        "{F7}".to_owned()
    } else if eq_str(&v, "f8") {
        "{F8}".to_owned()
    } else if eq_str(&v, "f9") {
        "{F9}".to_owned()
    } else if eq_str(&v, "f10") {
        "{F10}".to_owned()
    } else if eq_str(&v, "f11") {
        "{F11}".to_owned()
    } else if eq_str(&v, "f12") {
        "{F12}".to_owned()
    } else {
        k.to_owned()
    }
}

/// SendKeys prefix of a modifier name, if it is one: ctrl `^`, alt `%`,
/// shift `+`, win `^%`.
pub open spec fn modifier_notation(m: Seq<char>) -> Option<Seq<char>> {
    if m == "ctrl"@ || m == "control"@ {
        Some("^"@)
    } else if m == "alt"@ {
        Some("%"@)
    } else if m == "shift"@ {
        Some("+"@)
    } else if m == "win"@ || m == "windows"@ {
        Some("^%"@)
    } else {
        None
    }
}

/// The modifiers' notation, or the first unknown modifier (trimmed).
pub open spec fn modifiers_notation(ms: Seq<Seq<char>>) -> Result<Seq<char>, Seq<char>>
    decreases ms.len(),
{
    if ms.len() == 0 {
        Ok(Seq::empty())
    } else {
        match modifier_notation(trim(ms[0])) {
            None => Err(trim(ms[0])),
            Some(p) => match modifiers_notation(ms.drop_first()) {
                Ok(rest) => Ok(p + rest),
                Err(e) => Err(e),
            },
        }
    }
}

/// SendKeys notation of a lowercase combo: the parts before the last `+`
/// are modifiers, the last part is the key; `Err` holds an unknown modifier.
pub open spec fn combo_notation(lower: Seq<char>) -> Result<Seq<char>, Seq<char>> {
    let parts = split_char(lower, '+');
    match modifiers_notation(parts.drop_last()) {
        Ok(m) => Ok(m + key_notation(trim(parts.last()))),
        Err(e) => Err(e),
    }
}

fn modifier_text(m: &Vec<char>) -> (r: Option<String>)
    ensures
        match r {
            Some(s) => modifier_notation(m@) == Some(s@),
            None => modifier_notation(m@) is None,
        },
{
    if eq_str(m, "ctrl") || eq_str(m, "control") {
        Some("^".to_owned())
    } else if eq_str(m, "alt") {
        Some("%".to_owned())
    } else if eq_str(m, "shift") {
        Some("+".to_owned())
    } else if eq_str(m, "win") || eq_str(m, "windows") {
        Some("^%".to_owned())
    } else {
        None
    }
}

/// Message of a refused combo.
pub open spec fn unknown_modifier_message(m: Seq<char>) -> Seq<char> {
    "Unknown modifier: '"@ + m + "'"@
}

/// The rest of `combo_to_sendkeys` once the combo is lowercased.
pub fn sendkeys_from_lowercase(lower: &str) -> (r: Result<String, String>)
    ensures
        match combo_notation(lower@) {
            Ok(n) => r matches Ok(s) && s@ == n,
            Err(m) => r matches Err(e) && e@ == unknown_modifier_message(m),
        },
{
    let v = chars_of(lower);
    let parts = split_vec(&v, '+');
    proof {
        crate::text::lemma_split_char_len(v@, '+');
    }
    let ghost pv = views(parts@);
    let n = parts.len();
    let mut mods = String::new();
    let mut i: usize = 0;
    assert(pv.drop_last().skip(0) =~= pv.drop_last());
    assert(mods@ =~= Seq::<char>::empty());
    while i + 1 < n
        invariant
            n == parts.len(),
            n >= 1,
            i <= n - 1,
            pv == views(parts@),
            pv == split_char(lower@, '+'),
            match modifiers_notation(pv.drop_last()) {
                Ok(all) => match modifiers_notation(pv.drop_last().skip(i as int)) {
                    Ok(rest) => all == mods@ + rest,
                    Err(_) => false,
                },
                Err(e) => modifiers_notation(pv.drop_last().skip(i as int)) == Err::<Seq<char>, Seq<char>>(e),
            },
        decreases n - i,
    {
        let ghost rest = pv.drop_last().skip(i as int);
        assert(rest[0] == parts@[i as int]@);
        assert(rest.drop_first() =~= pv.drop_last().skip(i + 1));
        let m = trim_vec(&parts[i]);
        match modifier_text(&m) {
            Some(p) => {
                let ghost before = mods@;
                mods.append(p.as_str());
                assert(mods@ == before + p@);
            },
            None => {
                assert(modifiers_notation(rest) == Err::<Seq<char>, Seq<char>>(m@));
                let mut e = "Unknown modifier: '".to_owned();
                e.append(string_of(&m).as_str());
                e.append("'");
                return Err(e);
            },
        }
        i = i + 1;
    }
    assert(pv.drop_last().skip(i as int) =~= Seq::<Seq<char>>::empty());
    assert(pv.last() == parts@[n - 1]@);
    let key = trim_vec(&parts[n - 1]);
    let k = named_key(string_of(&key).as_str());
    mods.append(k.as_str());
    Ok(mods)
}

/// Converts a human-readable key combo (`ctrl+s`, `alt+tab`, `enter`) to
/// SendKeys notation (`^s`, `%{TAB}`, `{ENTER}`), case-insensitively;
/// an unknown modifier is refused.
pub fn combo_to_sendkeys(combo: &str) -> (r: Result<String, String>)
    ensures
        match combo_notation(unicode_lower(combo@)) {
            Ok(n) => r matches Ok(s) && s@ == n,
            Err(m) => r matches Err(e) && e@ == unknown_modifier_message(m),
        },
        all_ascii(combo@) ==> match combo_notation(ascii_lower(combo@)) {
            Ok(n) => r matches Ok(s) && s@ == n,
            Err(m) => r matches Err(e) && e@ == unknown_modifier_message(m),
        },
{
    let lower = to_lowercase(combo);
    sendkeys_from_lowercase(lower.as_str())
}

} // verus!
