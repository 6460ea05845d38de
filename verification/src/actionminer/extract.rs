//! Pattern-based action-item extraction.
//!
//! Recognised (case-insensitive): explicit labels (`ACTION:`, `ACTION ITEM:`,
//! `TODO:`, `TASK:`, `FOLLOW-UP:`), verb phrases ("needs to", "must",
//! "should", "responsible for", ...), inline deadlines ("by <date>",
//! "due <date>", "deadline: <date>") and assignees ("assigned to:",
//! "owner:", `@name`), and bullet points under an "Action Items:" heading.
use vstd::prelude::*;
use crate::actionminer::models::{item_view, opt_view, ActionItem, ItemView};
use crate::pattern::{compile, first_group, is_match, regex_compiles, regex_first_group, regex_is_match, Matcher};
use crate::text::{utf8_len, chars_of, ends_with, lines, lines_vec, string_of, trim, trim_vec, views};

verus! {

pub open spec fn explicit_label_pattern() -> Seq<char> {
    "(?i)^[\\s\\-\\*>]*(?:action\\s+item[s]?|action|todo|task|follow[\\s\\-]?up)\\s*:\\s*(.+)"@
}

pub open spec fn verb_phrase_pattern() -> Seq<char> {
    "(?i)\\b(will\\s+(?:be\\s+)?do(?:ing|ne)?|needs?\\s+to|have?\\s+to|has\\s+to|must|should|responsible\\s+for|is\\s+expected\\s+to|is\\s+to)\\b"@
}

pub open spec fn deadline_pattern() -> Seq<char> {
    "(?i)(?:by|due(?:\\s+date)?|deadline)\\s*:?\\s+([A-Za-z0-9/\\-,\\. ]{3,30})"@
}

pub open spec fn assignee_pattern() -> Seq<char> {
    "(?i)(?:assigned\\s+to|owner|responsible|for)\\s*:\\s*(@?\\w[\\w\\s\\-]{0,30})"@
}

pub open spec fn section_header_pattern() -> Seq<char> {
    "(?i)^\\s*(?:action\\s+items?|action\\s+required|follow[\\s\\-]?ups?|tasks?)\\s*:?\\s*$"@
}

pub open spec fn bullet_pattern() -> Seq<char> {
    "^[\\s]*(?:[-\\*\\u2022>]|\\d+[.)]) (.+)"@
}

pub open spec fn at_mention_pattern() -> Seq<char> {
    "@(\\w+)"@
}

/// Text of capture group 1 of the first match of `pattern` in `text`
/// (empty where the group took no part).
pub open spec fn group1(pattern: Seq<char>, text: Seq<char>) -> Option<Seq<char>> {
    match regex_first_group(pattern, text) {
        Some(Some(g)) => Some(g),
        Some(None) => Some(Seq::empty()),
        None => None,
    }
}

/// Whether every pattern of the extractor compiles.
pub open spec fn patterns_compile() -> bool {
    &&& regex_compiles(explicit_label_pattern())
    &&& regex_compiles(verb_phrase_pattern())
    &&& regex_compiles(deadline_pattern())
    &&& regex_compiles(assignee_pattern())
    &&& regex_compiles(section_header_pattern())
    &&& regex_compiles(bullet_pattern())
    &&& regex_compiles(at_mention_pattern())
}

/// The compiled patterns of the extractor.
pub struct Patterns {
    explicit_label: Matcher,
    verb_phrase: Matcher,
    deadline_inline: Matcher,
    assignee_inline: Matcher,
    section_header: Matcher,
    bullet: Matcher,
    at_mention: Matcher,
}

impl Patterns {
    #[verifier::type_invariant]
    spec fn inv(&self) -> bool {
        &&& self.explicit_label.pattern() == explicit_label_pattern()
        &&& self.verb_phrase.pattern() == verb_phrase_pattern()
        &&& self.deadline_inline.pattern() == deadline_pattern()
        &&& self.assignee_inline.pattern() == assignee_pattern()
        &&& self.section_header.pattern() == section_header_pattern()
        &&& self.bullet.pattern() == bullet_pattern()
        &&& self.at_mention.pattern() == at_mention_pattern()
    }

    /// Compiles the patterns; `None` where one does not compile.
    pub fn new() -> (r: Option<Patterns>)
        ensures
            r is Some <==> patterns_compile(),
    {
        let explicit_label = match compile(
            "(?i)^[\\s\\-\\*>]*(?:action\\s+item[s]?|action|todo|task|follow[\\s\\-]?up)\\s*:\\s*(.+)",
        ) {
            Some(m) => m,
            None => {
                return None;
            },
        };
        let verb_phrase = match compile(
            "(?i)\\b(will\\s+(?:be\\s+)?do(?:ing|ne)?|needs?\\s+to|have?\\s+to|has\\s+to|must|should|responsible\\s+for|is\\s+expected\\s+to|is\\s+to)\\b",
        ) {
            Some(m) => m,
            None => {
                return None;
            },
        };
        let deadline_inline = match compile(
            "(?i)(?:by|due(?:\\s+date)?|deadline)\\s*:?\\s+([A-Za-z0-9/\\-,\\. ]{3,30})",
        ) {
            Some(m) => m,
            None => {
                return None;
            },
        };
        let assignee_inline = match compile(
            "(?i)(?:assigned\\s+to|owner|responsible|for)\\s*:\\s*(@?\\w[\\w\\s\\-]{0,30})",
        ) {
            Some(m) => m,
            None => {
                return None;
            },
        };
        let section_header = match compile(
            "(?i)^\\s*(?:action\\s+items?|action\\s+required|follow[\\s\\-]?ups?|tasks?)\\s*:?\\s*$",
        ) {
            Some(m) => m,
            None => {
                return None;
            },
        };
        let bullet = match compile("^[\\s]*(?:[-\\*\\u2022>]|\\d+[.)]) (.+)") {
            Some(m) => m,
            None => {
                return None;
            },
        };
        let at_mention = match compile("@(\\w+)") {
            Some(m) => m,
            None => {
                return None;
            },
        };
        Some(
            Patterns {
                explicit_label,
                verb_phrase,
                deadline_inline,
                assignee_inline,
                section_header,
                bullet,
                at_mention,
            },
        )
    }
}

fn group1_of(m: &Matcher, text: &str) -> (r: Option<String>)
    ensures
        opt_view(r) == group1(m.pattern(), text@),
{
    match first_group(m, text) {
        Some(Some(g)) => Some(g),
        Some(None) => Some(String::new()),
        None => None,
    }
}

// ---------------------------------------------------------------------------
// Metadata
// ---------------------------------------------------------------------------

/// Text searched for metadata: the description, and the next line after a
/// space where there is one.
pub open spec fn search_text(desc: Seq<char>, next: Option<Seq<char>>) -> Seq<char> {
    match next {
        Some(n) => desc + seq![' '] + n,
        None => desc,
    }
}

/// Assignee named in `text`: an "assigned to:"-style label first, else an
/// `@mention`.
pub open spec fn assignee_in(text: Seq<char>) -> Option<Seq<char>> {
    match group1(assignee_pattern(), text) {
        Some(g) => Some(trim(g)),
        None => match group1(at_mention_pattern(), text) {
            Some(g) => Some(seq!['@'] + g),
            None => None,
        },
    }
}

/// Deadline named in `text`.
pub open spec fn deadline_in(text: Seq<char>) -> Option<Seq<char>> {
    match group1(deadline_pattern(), text) {
        Some(g) => Some(trim(g)),
        None => None,
    }
}

/// A new item with its metadata.
pub open spec fn new_item(desc: Seq<char>, next: Option<Seq<char>>, source: Seq<char>) -> ItemView {
    let t = search_text(desc, next);
    (desc, assignee_in(t), deadline_in(t), source)
}

fn extract_metadata(p: &Patterns, desc: &str, next_line: Option<&str>) -> (r: (
    Option<String>,
    Option<String>,
))
    ensures
        opt_view(r.0) == assignee_in(search_text(desc@, match next_line {
            Some(n) => Some(n@),
            None => None,
        })),
        opt_view(r.1) == deadline_in(search_text(desc@, match next_line {
            Some(n) => Some(n@),
            None => None,
        })),
{
    proof {
        use_type_invariant(p);
    }
    let search = match next_line {
        Some(nl) => {
            let mut s = desc.to_owned();
            s.append(" ");
            s.append(nl);
            proof {
                reveal_strlit(" ");
            }
            assert(s@ =~= desc@ + seq![' '] + nl@);
            s
        },
        None => desc.to_owned(),
    };
    let assignee = match group1_of(&p.assignee_inline, search.as_str()) {
        Some(g) => {
            let t = trim_vec(&chars_of(g.as_str()));
            Some(string_of(&t))
        },
        None => match group1_of(&p.at_mention, search.as_str()) {
            Some(g) => {
                let mut s = "@".to_owned();
                s.append(g.as_str());
                proof {
                    reveal_strlit("@");
                }
                assert(s@ =~= seq!['@'] + g@);
                Some(s)
            },
            None => None,
        },
    };
    let deadline = match group1_of(&p.deadline_inline, search.as_str()) {
        Some(g) => {
            let t = trim_vec(&chars_of(g.as_str()));
            Some(string_of(&t))
        },
        None => None,
    };
    (assignee, deadline)
}

// ---------------------------------------------------------------------------
// The scan over lines
// ---------------------------------------------------------------------------

/// The line after position `i`, where there is one.
pub open spec fn next_of(ls: Seq<Seq<char>>, i: int) -> Option<Seq<char>> {
    if i + 1 < ls.len() {
        Some(ls[i + 1])
    } else {
        None
    }
}

/// `items` with the deadline (or assignee) of its last item set to `v` where
/// that item has none; unchanged where there is no item.
pub open spec fn fill_last(items: Seq<ItemView>, v: Seq<char>, deadline: bool) -> Seq<ItemView> {
    if items.len() == 0 {
        items
    } else {
        let l = items.last();
        if deadline {
            if l.2 is None {
                items.update(items.len() - 1, (l.0, l.1, Some(v), l.3))
            } else {
                items
            }
        } else {
            if l.1 is None {
                items.update(items.len() - 1, (l.0, Some(v), l.2, l.3))
            } else {
                items
            }
        }
    }
}

/// Items found in lines `i..` of `ls`, given whether an action section is
/// open and the items found in earlier lines.
pub open spec fn mine_from(
    ls: Seq<Seq<char>>,
    i: nat,
    in_section: bool,
    items: Seq<ItemView>,
    source: Seq<char>,
) -> Seq<ItemView>
    decreases ls.len() - i,
{
    if i >= ls.len() {
        items
    } else {
        let l = trim(ls[i as int]);
        let next = next_of(ls, i as int);
        if regex_is_match(section_header_pattern(), l) {
            mine_from(ls, i + 1, true, items, source)
        } else if in_section {
            if l.len() == 0 {
                mine_from(ls, i + 1, true, items, source)
            } else {
                let bullet_desc = match group1(bullet_pattern(), l) {
                    Some(c) => trim(c),
                    None => Seq::empty(),
                };
                if bullet_desc.len() > 0 {
                    mine_from(ls, i + 1, true, items.push(new_item(bullet_desc, next, source)), source)
                } else if utf8_len(l) > 5 && !ends_with(l, seq![':']) {
                    mine_from(ls, i + 1, true, items.push(new_item(l, next, source)), source)
                } else {
                    mine_from(ls, i + 1, false, items, source)
                }
            }
        } else {
            let label_desc = match group1(explicit_label_pattern(), l) {
                Some(c) => trim(c),
                None => Seq::empty(),
            };
            if label_desc.len() > 0 {
                mine_from(ls, i + 1, false, items.push(new_item(label_desc, next, source)), source)
            } else if group1(deadline_pattern(), l) is Some {
                mine_from(
                    ls,
                    i + 1,
                    false,
                    fill_last(items, trim(group1(deadline_pattern(), l)->Some_0), true),
                    source,
                )
            } else if group1(assignee_pattern(), l) is Some {
                mine_from(
                    ls,
                    i + 1,
                    false,
                    fill_last(items, trim(group1(assignee_pattern(), l)->Some_0), false),
                    source,
                )
            } else if regex_is_match(verb_phrase_pattern(), l) {
                mine_from(ls, i + 1, false, items.push(new_item(l, next, source)), source)
            } else {
                mine_from(ls, i + 1, false, items, source)
            }
        }
    }
}

/// `items` without an item whose description repeats that of the item just
/// before it.
pub open spec fn dedup_adjacent(items: Seq<ItemView>) -> Seq<ItemView>
    decreases items.len(),
{
    if items.len() == 0 {
        Seq::empty()
    } else {
        let prev = dedup_adjacent(items.drop_last());
        if prev.len() > 0 && prev.last().0 == items.last().0 {
            prev
        } else {
            prev.push(items.last())
        }
    }
}

/// Action items of `text`, each recorded as coming from `source`.
pub open spec fn mined(text: Seq<char>, source: Seq<char>) -> Seq<ItemView> {
    dedup_adjacent(mine_from(lines(text), 0, false, Seq::empty(), source))
}

pub open spec fn items_view(items: Seq<ActionItem>) -> Seq<ItemView> {
    items.map_values(|a: ActionItem| item_view(a))
}

fn push_item(
    p: &Patterns,
    items: &mut Vec<ActionItem>,
    desc: &Vec<char>,
    next: &Option<String>,
    source_file: &str,
)
    requires
        forall|j: int| 0 <= j < old(items)@.len() ==> (#[trigger] old(items)@[j]).id == 0 && old(items)@[j].status@ == "open"@,
    ensures
        items_view(final(items)@) == items_view(old(items)@).push(
            new_item(desc@, opt_view(*next), source_file@),
        ),
        forall|j: int| 0 <= j < final(items)@.len() ==> (#[trigger] final(items)@[j]).id == 0 && final(items)@[j].status@ == "open"@,
{
    let d = string_of(desc);
    let nl: Option<&str> = match next {
        Some(n) => Some(n.as_str()),
        None => None,
    };
    let (assignee, deadline) = extract_metadata(p, d.as_str(), nl);
    let item = ActionItem::new(d, assignee, deadline, source_file.to_owned());
    let ghost before = items_view(items@);
    items.push(item);
    assert(items_view(items@) =~= before.push(new_item(desc@, opt_view(*next), source_file@)));
}

fn fill_last_exec(items: &mut Vec<ActionItem>, v: &Vec<char>, deadline: bool)
    requires
        forall|j: int| 0 <= j < old(items)@.len() ==> (#[trigger] old(items)@[j]).id == 0 && old(items)@[j].status@ == "open"@,
    ensures
        items_view(final(items)@) == fill_last(items_view(old(items)@), v@, deadline),
        forall|j: int| 0 <= j < final(items)@.len() ==> (#[trigger] final(items)@[j]).id == 0 && final(items)@[j].status@ == "open"@,
{
    if items.len() == 0 {
        return;
    }
    let ghost before = items_view(items@);
    let ghost old_items = items@;
    let mut last = items.pop().unwrap();
    assert(items_view(items@) =~= before.drop_last());
    assert(last == old_items[old_items.len() - 1]);
    assert(item_view(last) == before.last());
    if deadline {
        if last.deadline.is_none() {
            last.deadline = Some(string_of(v));
        }
    } else {
        if last.assignee.is_none() {
            last.assignee = Some(string_of(v));
        }
    }
    items.push(last);
    assert(items_view(items@) =~= fill_last(before, v@, deadline));
}

fn dedup_items(items: Vec<ActionItem>) -> (r: Vec<ActionItem>)
    requires
        forall|j: int| 0 <= j < items@.len() ==> (#[trigger] items@[j]).id == 0 && items@[j].status@ == "open"@,
    ensures
        items_view(r@) == dedup_adjacent(items_view(items@)),
        forall|j: int| 0 <= j < r@.len() ==> (#[trigger] r@[j]).id == 0 && r@[j].status@ == "open"@,
{
    let ghost iv = items_view(items@);
    let mut out: Vec<ActionItem> = Vec::new();
    let mut rest = items;
    let n = rest.len();
    let mut k: usize = 0;
    assert(iv.skip(0) =~= iv);
    while k < n
        invariant
            k <= n,
            n == iv.len(),
            rest@.len() == n - k,
            items_view(rest@) == iv.skip(k as int),
            items_view(out@) == dedup_adjacent(iv.take(k as int)),
            forall|j: int| 0 <= j < rest@.len() ==> (#[trigger] rest@[j]).id == 0 && rest@[j].status@ == "open"@,
            forall|j: int| 0 <= j < out@.len() ==> (#[trigger] out@[j]).id == 0 && out@[j].status@ == "open"@,
        decreases n - k,
    {
        let ghost before_rest = items_view(rest@);
        let ghost old_rest = rest@;
        let item = rest.remove(0);
        assert(item == old_rest[0]);
        assert(before_rest[0] == item_view(old_rest[0]));
        assert(iv.skip(k as int)[0] == iv[k as int]);
        assert forall|j: int| 0 <= j < rest@.len() implies (#[trigger] rest@[j]).id == 0 && rest@[j].status@ == "open"@ by {
            assert(rest@[j] == old_rest[j + 1]);
        }
        assert(items_view(rest@) =~= before_rest.drop_first());
        assert(item_view(item) == iv[k as int]);
        assert(before_rest.drop_first() =~= iv.skip(k + 1));
        let ghost t = iv.take(k + 1);
        assert(t.drop_last() =~= iv.take(k as int));
        let keep = if out.len() > 0 {
            let a = chars_of(out[out.len() - 1].description.as_str());
            let b = chars_of(item.description.as_str());
            !crate::text::vec_eq(&a, &b)
        } else {
            true
        };
        if keep {
            let ghost before = items_view(out@);
            out.push(item);
            assert(items_view(out@) =~= before.push(iv[k as int]));
        }
        k = k + 1;
    }
    assert(iv.take(n as int) =~= iv);
    out
}

/// Extracts action items from `text` with compiled patterns; `source_file`
/// is recorded on each item.
pub fn extract_with(p: &Patterns, text: &str, source_file: &str) -> (r: Vec<ActionItem>)
    ensures
        items_view(r@) == mined(text@, source_file@),
        forall|i: int| 0 <= i < r@.len() ==> (#[trigger] r@[i]).id == 0 && r@[i].status@ == "open"@,
{
    proof {
        use_type_invariant(p);
    }
    let v = chars_of(text);
    let ls = lines_vec(&v);
    let ghost lv = views(ls@);
    let mut items: Vec<ActionItem> = Vec::new();
    let mut in_section = false;
    let mut i: usize = 0;
    assert(items_view(items@) =~= Seq::<ItemView>::empty());
    while i < ls.len()
        invariant
            i <= ls.len(),
            lv == views(ls@),
            lv == lines(text@),
            mine_from(lv, 0, false, Seq::empty(), source_file@) == mine_from(
                lv,
                i as nat,
                in_section,
                items_view(items@),
                source_file@,
            ),
            forall|j: int| 0 <= j < items@.len() ==> (#[trigger] items@[j]).id == 0 && items@[j].status@ == "open"@,
        decreases ls.len() - i,
    {
        proof {
            use_type_invariant(p);
        }
        let ghost st_items = items_view(items@);
        let ghost st_sec = in_section;
        let l = trim_vec(&ls[i]);
        assert(lv[i as int] == ls@[i as int]@);
        let line = string_of(&l);
        let next: Option<String> = if i + 1 < ls.len() {
            Some(string_of(&ls[i + 1]))
        } else {
            None
        };
        assert(opt_view(next) == next_of(lv, i as int));
        if is_match(&p.section_header, line.as_str()) {
            in_section = true;
        } else if in_section {
            if l.len() == 0 {
            } else {
                let bullet_desc = match group1_of(&p.bullet, line.as_str()) {
                    Some(c) => trim_vec(&chars_of(c.as_str())),
                    None => Vec::new(),
                };
                assert(bullet_desc@ == (match group1(bullet_pattern(), l@) {
                    Some(c) => trim(c),
                    None => Seq::<char>::empty(),
                }));
                if bullet_desc.len() > 0 {
                    push_item(p, &mut items, &bullet_desc, &next, source_file);
                } else if crate::text::utf8_len_gt(&l, 5) && !crate::text::vec_ends_with_char(&l, ':') {
                    push_item(p, &mut items, &l, &next, source_file);
                } else {
                    in_section = false;
                }
            }
        } else {
            let label_desc = match group1_of(&p.explicit_label, line.as_str()) {
                Some(c) => trim_vec(&chars_of(c.as_str())),
                None => Vec::new(),
            };
            assert(label_desc@ == (match group1(explicit_label_pattern(), l@) {
                Some(c) => trim(c),
                None => Seq::<char>::empty(),
            }));
            if label_desc.len() > 0 {
                push_item(p, &mut items, &label_desc, &next, source_file);
            } else {
                match group1_of(&p.deadline_inline, line.as_str()) {
                    Some(c) => {
                        let t = trim_vec(&chars_of(c.as_str()));
                        fill_last_exec(&mut items, &t, true);
                    },
                    None => {
                        match group1_of(&p.assignee_inline, line.as_str()) {
                            Some(c) => {
                                let t = trim_vec(&chars_of(c.as_str()));
                                fill_last_exec(&mut items, &t, false);
                            },
                            None => {
                                if is_match(&p.verb_phrase, line.as_str()) {
                                    push_item(p, &mut items, &l, &next, source_file);
                                }
                            },
                        }
                    },
                }
            }
        }
        assert(mine_from(lv, i as nat, st_sec, st_items, source_file@) == mine_from(
            lv,
            (i + 1) as nat,
            in_section,
            items_view(items@),
            source_file@,
        ));
        i = i + 1;
    }
    dedup_items(items)
}

/// Extracts action items from `text`; `source_file` is recorded on each
/// item. `None` where the extractor's patterns do not compile.
pub fn extract(text: &str, source_file: &str) -> (r: Option<Vec<ActionItem>>)
    ensures
        r is Some <==> patterns_compile(),
        r matches Some(items) ==> items_view(items@) == mined(text@, source_file@),
        r matches Some(items) ==> forall|i: int| 0 <= i < items@.len() ==> (#[trigger] items@[i]).id == 0
            && items@[i].status@ == "open"@,
        r matches Some(items) ==> items@.len() <= lines(text@).len(),
{
    proof {
        lemma_mined_len(text@, source_file@);
    }
    match Patterns::new() {
        Some(p) => Some(extract_with(&p, text, source_file)),
        None => None,
    }
}


proof fn lemma_mine_len(ls: Seq<Seq<char>>, i: nat, in_section: bool, items: Seq<ItemView>, source: Seq<char>)
    ensures
        mine_from(ls, i, in_section, items, source).len() <= items.len() + (if i <= ls.len() {
            ls.len() - i
        } else {
            0
        }),
    decreases ls.len() - i,
{
    if i < ls.len() {
        let l = trim(ls[i as int]);
        let next = next_of(ls, i as int);
        lemma_mine_len(ls, i + 1, true, items, source);
        lemma_mine_len(ls, i + 1, false, items, source);
        lemma_mine_len(ls, i + 1, true, items.push(new_item(l, next, source)), source);
        lemma_mine_len(ls, i + 1, false, items.push(new_item(l, next, source)), source);
        let bullet_desc = match group1(bullet_pattern(), l) {
            Some(c) => trim(c),
            None => Seq::empty(),
        };
        lemma_mine_len(ls, i + 1, true, items.push(new_item(bullet_desc, next, source)), source);
        let label_desc = match group1(explicit_label_pattern(), l) {
            Some(c) => trim(c),
            None => Seq::empty(),
        };
        lemma_mine_len(ls, i + 1, false, items.push(new_item(label_desc, next, source)), source);
        if group1(deadline_pattern(), l) is Some {
            lemma_mine_len(ls, i + 1, false, fill_last(items, trim(group1(deadline_pattern(), l)->Some_0), true), source);
        }
        if group1(assignee_pattern(), l) is Some {
            lemma_mine_len(ls, i + 1, false, fill_last(items, trim(group1(assignee_pattern(), l)->Some_0), false), source);
        }
    }
}

proof fn lemma_dedup_len(items: Seq<ItemView>)
    ensures
        dedup_adjacent(items).len() <= items.len(),
    decreases items.len(),
{
    if items.len() > 0 {
        lemma_dedup_len(items.drop_last());
    }
}

/// Extraction finds at most one item per line of the text.
pub proof fn lemma_mined_len(text: Seq<char>, source: Seq<char>)
    ensures
        mined(text, source).len() <= lines(text).len(),
{
    lemma_mine_len(lines(text), 0, false, Seq::empty(), source);
    lemma_dedup_len(mine_from(lines(text), 0, false, Seq::empty(), source));
}

/// After extraction no item repeats the description of the item just before
/// it.
pub proof fn lemma_no_adjacent_repeats(items: Seq<ItemView>)
    ensures
        forall|i: int| 0 < i < dedup_adjacent(items).len() ==> (#[trigger] dedup_adjacent(items)[i]).0 != dedup_adjacent(items)[i - 1].0,
    decreases items.len(),
{
    if items.len() > 0 {
        lemma_no_adjacent_repeats(items.drop_last());
        let p = dedup_adjacent(items.drop_last());
        let r = dedup_adjacent(items);
        assert forall|i: int| 0 < i < r.len() implies (#[trigger] r[i]).0 != r[i - 1].0 by {
            if i < p.len() {
                assert(r[i] == p[i] && r[i - 1] == p[i - 1]);
            }
        }
    }
}
} // verus!
