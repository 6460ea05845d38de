//! Health of the tool binaries.
use vstd::prelude::*;

verus! {

/// Health report for a single tool binary.
#[derive(Debug, Clone)]
pub struct ToolHealth {
    pub name: String,
    pub binary_exists: bool,
    pub version: Option<String>,
    /// Absolute path checked.
    pub binary_path: String,
}

impl ToolHealth {
    /// Short status: `OK` or `MISSING`.
    pub fn status_str(&self) -> (r: &'static str)
        ensures
            r@ == (if self.binary_exists {
                "OK"@
            } else {
                "MISSING"@
            }),
    {
        if self.binary_exists {
            "OK"
        } else {
            "MISSING"
        }
    }

    /// The report for a tool whose binary at `binary_path` exists or not;
    /// a present binary reports version 0.1.0.
    pub fn report(name: &str, binary_path: String, exists: bool) -> (r: ToolHealth)
        ensures
            r.name@ == name@,
            r.binary_exists == exists,
            r.binary_path@ == binary_path@,
            match r.version {
                Some(v) => exists && v@ == "0.1.0"@,
                None => !exists,
            },
    {
        ToolHealth {
            name: name.to_owned(),
            binary_exists: exists,
            version: if exists {
                Some("0.1.0".to_owned())
            } else {
                None
            },
            binary_path,
        }
    }
}

/// The tools tracked, in order.
pub open spec fn tool_list() -> Seq<Seq<char>> {
    seq![
        "pdffill"@,
        "invoicer"@,
        "sigstamp"@,
        "clauseguard"@,
        "sheetwise"@,
        "mailcraft"@,
        "docconv"@,
        "actionminer"@,
        "receipts"@,
        "propbuilder"@,
        "screenreader"@,
        "mousecontrol"@
    ]
}

/// All tool names tracked.
pub fn tool_names() -> (r: Vec<&'static str>)
    ensures
        r@.map_values(|n: &str| n@) == tool_list(),
{
    let mut v: Vec<&'static str> = Vec::new();
    v.push("pdffill");
    v.push("invoicer");
    v.push("sigstamp");
    v.push("clauseguard");
    v.push("sheetwise");
    v.push("mailcraft");
    v.push("docconv");
    v.push("actionminer");
    v.push("receipts");
    v.push("propbuilder");
    v.push("screenreader");
    v.push("mousecontrol");
    assert(v@.map_values(|n: &str| n@) =~= tool_list());
    v
}

/// File name of a tool's binary: with `.exe` on Windows.
pub fn exe_name(name: &str, windows: bool) -> (r: String)
    ensures
        r@ == (if windows {
            name@ + ".exe"@
        } else {
            name@
        }),
{
    let mut s = name.to_owned();
    if windows {
        s.append(".exe");
    }
    s
}

/// How many tools in `tools` are present.
pub open spec fn present_count(tools: Seq<ToolHealth>) -> nat
    decreases tools.len(),
{
    if tools.len() == 0 {
        0
    } else {
        present_count(tools.drop_last()) + if tools.last().binary_exists {
            1nat
        } else {
            0
        }
    }
}

/// Counts the tools whose binaries are present.
pub fn healthy_count(tools: &[ToolHealth]) -> (r: usize)
    ensures
        r == present_count(tools@),
        r <= tools@.len(),
{
    let mut n: usize = 0;
    let mut i: usize = 0;
    while i < tools.len()
        invariant
            i <= tools.len(),
            n == present_count(tools@.take(i as int)),
            n <= i,
        decreases tools.len() - i,
    {
        assert(tools@.take(i + 1).drop_last() =~= tools@.take(i as int));
        if tools[i].binary_exists {
            n = n + 1;
        }
        i = i + 1;
    }
    assert(tools@.take(tools.len() as int) =~= tools@);
    n
}

} // verus!
