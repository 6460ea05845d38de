//! Colours, badges and exit codes of the contract risk reports.
use vstd::prelude::*;
use crate::clauseguard::analyzer::{ContractAnalysis, PageRisk};
use crate::clauseguard::clauses::{risk_name, risk_weight, ClauseInfo, RiskLevel};
use crate::text::{chars_of, str_views, vec_eq};

verus! {

/// ANSI colour of a risk level: bold red, bold yellow or bold green.
pub open spec fn color_of(risk: RiskLevel) -> Seq<char> {
    match risk {
        RiskLevel::Red => "\x1b[31;1m"@,
        RiskLevel::Yellow => "\x1b[33;1m"@,
        RiskLevel::Green => "\x1b[32;1m"@,
    }
}

pub fn risk_color(risk: &RiskLevel) -> (r: &'static str)
    ensures
        r@ == color_of(*risk),
{
    match risk {
        RiskLevel::Red => "\x1b[31;1m",
        RiskLevel::Yellow => "\x1b[33;1m",
        RiskLevel::Green => "\x1b[32;1m",
    }
}

/// The level's name in brackets, coloured, followed by a colour reset.
pub fn risk_badge(risk: &RiskLevel) -> (r: String)
    ensures
        r@ == color_of(*risk) + "["@ + risk_name(*risk) + "]"@ + "\x1b[0m"@,
{
    let mut s = risk_color(risk).to_owned();
    s.append("[");
    s.append(risk.as_str());
    s.append("]");
    s.append("\x1b[0m");
    s
}

/// Risk threshold chosen on the command line.
#[derive(Debug, Clone, Copy, PartialEq, Eq, Structural)]
pub enum ThresholdArg {
    Red,
    Yellow,
    Green,
}

impl ThresholdArg {
    pub fn to_risk_level(self) -> (r: RiskLevel)
        ensures
            r == (match self {
                ThresholdArg::Red => RiskLevel::Red,
                ThresholdArg::Yellow => RiskLevel::Yellow,
                ThresholdArg::Green => RiskLevel::Green,
            }),
    {
        match self {
            ThresholdArg::Red => RiskLevel::Red,
            ThresholdArg::Yellow => RiskLevel::Yellow,
            ThresholdArg::Green => RiskLevel::Green,
        }
    }
}

/// Whether a clause of the given risk is shown under a `--threshold`: every
/// clause without one, else those at least as risky as the threshold.
pub fn shown_at(risk: RiskLevel, min: Option<RiskLevel>) -> (r: bool)
    ensures
        r == (match min {
            None => true,
            Some(m) => risk_weight(risk) >= risk_weight(m),
        }),
{
    match min {
        None => true,
        Some(m) => risk.weight() >= m.weight(),
    }
}

/// Process exit code reflecting a risk level: 0 green, 1 yellow, 2 red.
pub fn exit_code(risk: RiskLevel) -> (r: i32)
    ensures
        r == (match risk {
            RiskLevel::Green => 0int,
            RiskLevel::Yellow => 1,
            RiskLevel::Red => 2,
        }),
{
    match risk {
        RiskLevel::Green => 0,
        RiskLevel::Yellow => 1,
        RiskLevel::Red => 2,
    }
}

/// Risk label published with an analysed contract: red above 50, yellow
/// above 20, green otherwise.
pub fn bus_risk_label(score: u32) -> (r: &'static str)
    ensures
        r@ == (if score > 50 {
            "red"@
        } else if score > 20 {
            "yellow"@
        } else {
            "green"@
        }),
{
    if score > 50 {
        "red"
    } else if score > 20 {
        "yellow"
    } else {
        "green"
    }
}


/// The numbers of the identified clauses.
pub open spec fn clause_numbers(ks: Seq<ClauseInfo>) -> Seq<Seq<char>> {
    ks.map_values(|c: ClauseInfo| c.number@)
}

/// The references, in order, that are not among `known`.
pub open spec fn unknown_refs(refs: Seq<Seq<char>>, known: Seq<Seq<char>>) -> Seq<Seq<char>>
    decreases refs.len(),
{
    if refs.len() == 0 {
        refs
    } else {
        unknown_refs(refs.drop_last(), known) + if known.contains(refs.last()) {
            Seq::empty()
        } else {
            seq![refs.last()]
        }
    }
}

fn is_known(ks: &Vec<ClauseInfo>, r: &String) -> (b: bool)
    ensures
        b == clause_numbers(ks@).contains(r@),
{
    let rv = chars_of(r.as_str());
    let mut i: usize = 0;
    while i < ks.len()
        invariant
            i <= ks.len(),
            rv@ == r@,
            forall|j: int| 0 <= j < i ==> ks@[j].number@ != r@,
        decreases ks.len() - i,
    {
        if vec_eq(&chars_of(ks[i].number.as_str()), &rv) {
            assert(clause_numbers(ks@)[i as int] == r@);
            return true;
        }
        i = i + 1;
    }
    proof {
        if clause_numbers(ks@).contains(r@) {
            let j = choose|j: int| 0 <= j < clause_numbers(ks@).len() && clause_numbers(ks@)[j] == r@;
            assert(ks@[j].number@ == r@);
        }
    }
    false
}

/// The clause references of an analysis that match no identified clause,
/// in the order found.
pub fn unrecognised_refs(a: &ContractAnalysis) -> (r: Vec<String>)
    ensures
        str_views(r@) == unknown_refs(str_views(a.all_clause_refs@), clause_numbers(a.known_clauses@)),
{
    let refs = &a.all_clause_refs;
    let mut out: Vec<String> = Vec::new();
    let mut i: usize = 0;
    while i < refs.len()
        invariant
            i <= refs.len(),
            refs == &a.all_clause_refs,
            str_views(out@) == unknown_refs(str_views(refs@).take(i as int), clause_numbers(a.known_clauses@)),
        decreases refs.len() - i,
    {
        let ghost known = clause_numbers(a.known_clauses@);
        assert(str_views(refs@).take(i + 1).drop_last() =~= str_views(refs@).take(i as int));
        if !is_known(&a.known_clauses, &refs[i]) {
            let ghost before = str_views(out@);
            out.push(refs[i].clone());
            assert(str_views(out@) =~= before.push(refs@[i as int]@));
        }
        proof {
            let t = str_views(refs@).take(i + 1);
            assert(t.last() == refs@[i as int]@);
            if known.contains(t.last()) {
                assert(unknown_refs(t, known) =~= unknown_refs(t.drop_last(), known));
            } else {
                assert(unknown_refs(t, known) =~= unknown_refs(t.drop_last(), known).push(t.last()));
            }
        }
        i = i + 1;
    }
    assert(str_views(refs@).take(refs.len() as int) =~= str_views(refs@));
    out
}

/// Whether a page is reported: it is not green, or it cites clauses.
pub open spec fn is_flagged(p: PageRisk) -> bool {
    p.risk_level != RiskLevel::Green || p.clause_refs.len() > 0
}

/// The positions of the reported pages, in order.
pub open spec fn flagged_positions(pages: Seq<PageRisk>) -> Seq<int>
    decreases pages.len(),
{
    if pages.len() == 0 {
        Seq::empty()
    } else {
        flagged_positions(pages.drop_last()) + if is_flagged(pages.last()) {
            seq![pages.len() - 1]
        } else {
            Seq::empty()
        }
    }
}

/// Positions in `a.pages` of the pages the report lists: those that are not
/// green or that cite clauses.
pub fn flagged_pages(a: &ContractAnalysis) -> (r: Vec<usize>)
    ensures
        r@.map_values(|i: usize| i as int) == flagged_positions(a.pages@),
{
    let mut out: Vec<usize> = Vec::new();
    let mut i: usize = 0;
    while i < a.pages.len()
        invariant
            i <= a.pages.len(),
            out@.map_values(|k: usize| k as int) == flagged_positions(a.pages@.take(i as int)),
        decreases a.pages.len() - i,
    {
        let ghost t = a.pages@.take(i + 1);
        assert(t.drop_last() =~= a.pages@.take(i as int));
        let p = &a.pages[i];
        let ghost before = out@;
        if p.risk_level != RiskLevel::Green || p.clause_refs.len() > 0 {
            out.push(i);
            assert(out@.map_values(|k: usize| k as int) =~= before.map_values(|k: usize| k as int).push(
                i as int,
            ));
        } else {
            assert(out@ == before);
        }
        assert(t.last() == a.pages@[i as int]);
        i = i + 1;
    }
    assert(a.pages@.take(a.pages.len() as int) =~= a.pages@);
    out
}

} // verus!
