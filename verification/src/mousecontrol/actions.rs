//! Scripted mouse and keyboard actions and the PowerShell scripts that
//! perform them.
use vstd::prelude::*;
use crate::mousecontrol::keys::{combo_notation, combo_to_sendkeys, unknown_modifier_message};
use crate::text::{chars_of, dec_int, dec, eq_str, i64_to_dec, string_of, to_lowercase, u64_to_dec, unicode_lower};

verus! {

/// One step of an automation script.
#[derive(Debug, Clone)]
pub enum Action {
    Click { x: i32, y: i32, button: String },
    Move { x: i32, y: i32 },
    Type { text: String },
    Key { combo: String },
    Wait { ms: u64 },
    Screenshot { output: String },
}

/// Mouse button used when a click names none.
pub fn default_button() -> (r: String)
    ensures
        r@ == "left"@,
{
    "left".to_owned()
}

/// What running an action amounts to: a script to run, reporting `message`
/// on success, or a pause.
#[derive(Debug, Clone)]
pub enum Step {
    Run { script: String, message: String },
    Wait { ms: u64, message: String },
}

/// PowerShell script of the click action.
pub open spec fn click_script_text(x: Seq<char>, y: Seq<char>, down: Seq<char>, up: Seq<char>) -> Seq<char> {
    "Add-Type -TypeDefinition @\"\nusing System;\nusing System.Runtime.InteropServices;\npublic class HoagsMouse {\n    [DllImport(\"user32.dll\")] public static extern bool SetCursorPos(int X, int Y);\n    [DllImport(\"user32.dll\")] public static extern void mouse_event(uint dwFlags, int dx, int dy, uint dwData, int dwExtraInfo);\n}\n\"@\n[HoagsMouse]::SetCursorPos("@ + x + ", "@ + y + ") | Out-Null\n[HoagsMouse]::mouse_event("@ + down + ", 0, 0, 0, 0)\n[HoagsMouse]::mouse_event("@ + up + ", 0, 0, 0, 0)"@
}

fn click_script_of(x: &str, y: &str, down: &str, up: &str) -> (r: String)
    ensures
        r@ == click_script_text(x@, y@, down@, up@),
{
    let mut s = "Add-Type -TypeDefinition @\"\nusing System;\nusing System.Runtime.InteropServices;\npublic class HoagsMouse {\n    [DllImport(\"user32.dll\")] public static extern bool SetCursorPos(int X, int Y);\n    [DllImport(\"user32.dll\")] public static extern void mouse_event(uint dwFlags, int dx, int dy, uint dwData, int dwExtraInfo);\n}\n\"@\n[HoagsMouse]::SetCursorPos(".to_owned();
    s.append(x);
    s.append(", ");
    s.append(y);
    s.append(") | Out-Null\n[HoagsMouse]::mouse_event(");
    s.append(down);
    s.append(", 0, 0, 0, 0)\n[HoagsMouse]::mouse_event(");
    s.append(up);
    s.append(", 0, 0, 0, 0)");
    s
}

/// PowerShell script of the move action.
pub open spec fn move_script_text(x: Seq<char>, y: Seq<char>) -> Seq<char> {
    "Add-Type -TypeDefinition @\"\nusing System;\nusing System.Runtime.InteropServices;\npublic class HoagsMouseMove {\n    [DllImport(\"user32.dll\")] public static extern bool SetCursorPos(int X, int Y);\n}\n\"@\n[HoagsMouseMove]::SetCursorPos("@ + x + ", "@ + y + ") | Out-Null"@
}

fn move_script_of(x: &str, y: &str) -> (r: String)
    ensures
        r@ == move_script_text(x@, y@),
{
    let mut s = "Add-Type -TypeDefinition @\"\nusing System;\nusing System.Runtime.InteropServices;\npublic class HoagsMouseMove {\n    [DllImport(\"user32.dll\")] public static extern bool SetCursorPos(int X, int Y);\n}\n\"@\n[HoagsMouseMove]::SetCursorPos(".to_owned();
    s.append(x);
    s.append(", ");
    s.append(y);
    s.append(") | Out-Null");
    s
}

/// PowerShell script of the type action.
pub open spec fn type_script_text(keys: Seq<char>) -> Seq<char> {
    "Add-Type -AssemblyName System.Windows.Forms\n[System.Windows.Forms.SendKeys]::SendWait('"@ + keys + "')"@
}

fn type_script_of(keys: &str) -> (r: String)
    ensures
        r@ == type_script_text(keys@),
{
    let mut s = "Add-Type -AssemblyName System.Windows.Forms\n[System.Windows.Forms.SendKeys]::SendWait('".to_owned();
    s.append(keys);
    s.append("')");
    s
}

/// PowerShell script of the key action.
pub open spec fn key_script_text(keys: Seq<char>) -> Seq<char> {
    "Add-Type -AssemblyName System.Windows.Forms\n[System.Windows.Forms.SendKeys]::SendWait('"@ + keys + "')"@
}

fn key_script_of(keys: &str) -> (r: String)
    ensures
        r@ == key_script_text(keys@),
{
    let mut s = "Add-Type -AssemblyName System.Windows.Forms\n[System.Windows.Forms.SendKeys]::SendWait('".to_owned();
    s.append(keys);
    s.append("')");
    s
}

/// PowerShell script of the screenshot action.
pub open spec fn screenshot_script_text(output: Seq<char>) -> Seq<char> {
    "Add-Type -AssemblyName System.Windows.Forms\nAdd-Type -AssemblyName System.Drawing\n$bounds = [System.Windows.Forms.Screen]::PrimaryScreen.Bounds\n$bmp = New-Object System.Drawing.Bitmap($bounds.Width, $bounds.Height)\n$g = [System.Drawing.Graphics]::FromImage($bmp)\n$g.CopyFromScreen($bounds.Location, [System.Drawing.Point]::Empty, $bounds.Size)\n$g.Dispose()\n$bmp.Save('"@ + output + "')\n$bmp.Dispose()\nWrite-Output \"saved\""@
}

fn screenshot_script_of(output: &str) -> (r: String)
    ensures
        r@ == screenshot_script_text(output@),
{
    let mut s = "Add-Type -AssemblyName System.Windows.Forms\nAdd-Type -AssemblyName System.Drawing\n$bounds = [System.Windows.Forms.Screen]::PrimaryScreen.Bounds\n$bmp = New-Object System.Drawing.Bitmap($bounds.Width, $bounds.Height)\n$g = [System.Drawing.Graphics]::FromImage($bmp)\n$g.CopyFromScreen($bounds.Location, [System.Drawing.Point]::Empty, $bounds.Size)\n$g.Dispose()\n$bmp.Save('".to_owned();
    s.append(output);
    s.append("')\n$bmp.Dispose()\nWrite-Output \"saved\"");
    s
}

/// SendKeys text of one typed character: a single quote is doubled for the
/// PowerShell string, and each character SendKeys treats specially is
/// wrapped once in braces (`+` as `{+}`, `{` as `{{}`, `}` as `{}}`).
pub open spec fn typed_char(c: char) -> Seq<char> {
    if c == '\'' {
        "''"@
    } else if c == '+' || c == '^' || c == '%' || c == '~' || c == '(' || c == ')' || c == '[' || c == ']'
        || c == '{' || c == '}' {
        seq!['{', c, '}']
    } else {
        seq![c]
    }
}

/// SendKeys text of typed text, character by character.
pub open spec fn typed_text(s: Seq<char>) -> Seq<char>
    decreases s.len(),
{
    if s.len() == 0 {
        Seq::empty()
    } else {
        typed_text(s.drop_last()) + typed_char(s.last())
    }
}

/// `s` with each single quote doubled.
pub open spec fn quote_doubled(s: Seq<char>) -> Seq<char>
    decreases s.len(),
{
    if s.len() == 0 {
        Seq::empty()
    } else {
        quote_doubled(s.drop_last()) + (if s.last() == '\'' {
            seq!['\'', '\'']
        } else {
            seq![s.last()]
        })
    }
}

fn typed_text_of(text: &str) -> (r: String)
    ensures
        r@ == typed_text(text@),
{
    let v = chars_of(text);
    let mut out = String::new();
    let mut i: usize = 0;
    assert(out@ =~= typed_text(v@.take(0)));
    while i < v.len()
        invariant
            i <= v.len(),
            v@ == text@,
            out@ == typed_text(v@.take(i as int)),
        decreases v.len() - i,
    {
        let ghost t = v@.take(i + 1);
        assert(t.drop_last() =~= v@.take(i as int));
        let c = v[i];
        let ghost before = out@;
        if c == '\'' {
            out.append("''");
        } else if c == '+' || c == '^' || c == '%' || c == '~' || c == '(' || c == ')' || c == '['
            || c == ']' || c == '{' || c == '}' {
            crate::text::push_char(&mut out, '{');
            crate::text::push_char(&mut out, c);
            crate::text::push_char(&mut out, '}');
            assert(out@ =~= before + seq!['{', c, '}']);
        } else {
            crate::text::push_char(&mut out, c);
        }
        assert(out@ =~= before + typed_char(c));
        i = i + 1;
    }
    assert(v@.take(v.len() as int) =~= v@);
    out
}

fn quote_doubled_of(text: &str) -> (r: String)
    ensures
        r@ == quote_doubled(text@),
{
    let v = chars_of(text);
    let mut out: Vec<char> = Vec::new();
    let mut i: usize = 0;
    while i < v.len()
        invariant
            i <= v.len(),
            out@ == quote_doubled(v@.take(i as int)),
        decreases v.len() - i,
    {
        let ghost t = v@.take(i + 1);
        assert(t.drop_last() =~= v@.take(i as int));
        if v[i] == '\'' {
            out.push('\'');
            out.push('\'');
        } else {
            out.push(v[i]);
        }
        assert(out@ =~= quote_doubled(t));
        i = i + 1;
    }
    assert(v@.take(v.len() as int) =~= v@);
    string_of(&out)
}

/// Whether a step runs `script` and reports `message`.
pub open spec fn runs(s: Step, script: Seq<char>, message: Seq<char>) -> bool {
    s matches Step::Run { script: sc, message: m } && sc@ == script && m@ == message
}

/// The click step for a button already lowercased where it matters: a right
/// click when it is `right`, a left click otherwise.
pub fn plan_click_lowercase(x: i32, y: i32, button: &str, lowered: &str) -> (r: Step)
    ensures
        runs(
            r,
            click_script_text(
                dec_int(x as int),
                dec_int(y as int),
                if lowered@ == "right"@ { "0x0008"@ } else { "0x0002"@ },
                if lowered@ == "right"@ { "0x0010"@ } else { "0x0004"@ },
            ),
            "Clicked "@ + button@ + " at ("@ + dec_int(x as int) + ", "@ + dec_int(y as int) + ")"@,
        ),
{
    let right = eq_str(&chars_of(lowered), "right");
    let (down, up) = if right {
        ("0x0008", "0x0010")
    } else {
        ("0x0002", "0x0004")
    };
    let xs = string_of(&i64_to_dec(x as i64));
    let ys = string_of(&i64_to_dec(y as i64));
    let script = click_script_of(xs.as_str(), ys.as_str(), down, up);
    let mut message = "Clicked ".to_owned();
    message.append(button);
    message.append(" at (");
    message.append(xs.as_str());
    message.append(", ");
    message.append(ys.as_str());
    message.append(")");
    Step::Run { script, message }
}

/// The click step: moves the cursor to (`x`, `y`) and clicks the right
/// button when `button` is `right` in any case, the left one otherwise.
pub fn plan_click(x: i32, y: i32, button: &str) -> (r: Step)
    ensures
        runs(
            r,
            click_script_text(
                dec_int(x as int),
                dec_int(y as int),
                if unicode_lower(button@) == "right"@ { "0x0008"@ } else { "0x0002"@ },
                if unicode_lower(button@) == "right"@ { "0x0010"@ } else { "0x0004"@ },
            ),
            "Clicked "@ + button@ + " at ("@ + dec_int(x as int) + ", "@ + dec_int(y as int) + ")"@,
        ),
{
    let lowered = to_lowercase(button);
    plan_click_lowercase(x, y, button, lowered.as_str())
}

/// The move step: puts the cursor at (`x`, `y`).
pub fn plan_move(x: i32, y: i32) -> (r: Step)
    ensures
        runs(
            r,
            move_script_text(dec_int(x as int), dec_int(y as int)),
            "Moved to ("@ + dec_int(x as int) + ", "@ + dec_int(y as int) + ")"@,
        ),
{
    let xs = string_of(&i64_to_dec(x as i64));
    let ys = string_of(&i64_to_dec(y as i64));
    let script = move_script_of(xs.as_str(), ys.as_str());
    let mut message = "Moved to (".to_owned();
    message.append(xs.as_str());
    message.append(", ");
    message.append(ys.as_str());
    message.append(")");
    Step::Run { script, message }
}

/// The typing step: sends `text`, its special characters escaped.
pub fn plan_type(text: &str) -> (r: Step)
    ensures
        runs(r, type_script_text(typed_text(text@)), "Typed: "@ + text@),
{
    let keys = typed_text_of(text);
    let script = type_script_of(keys.as_str());
    let mut message = "Typed: ".to_owned();
    message.append(text);
    Step::Run { script, message }
}

/// The key step: sends a combo in SendKeys notation; refused where a
/// modifier is unknown.
pub fn plan_key(combo: &str) -> (r: Result<Step, String>)
    ensures
        match combo_notation(unicode_lower(combo@)) {
            Ok(n) => r matches Ok(s) && runs(s, key_script_text(n), "Sent key combo: "@ + combo@ + " -> "@ + n),
            Err(m) => r matches Err(e) && e@ == unknown_modifier_message(m),
        },
{
    let keys = match combo_to_sendkeys(combo) {
        Ok(k) => k,
        Err(e) => {
            return Err(e);
        },
    };
    let script = key_script_of(keys.as_str());
    let mut message = "Sent key combo: ".to_owned();
    message.append(combo);
    message.append(" -> ");
    message.append(keys.as_str());
    Ok(Step::Run { script, message })
}

/// The screenshot step: saves the primary screen to `output`.
pub fn plan_screenshot(output: &str) -> (r: Step)
    ensures
        runs(r, screenshot_script_text(quote_doubled(output@)), "Screenshot saved to: "@ + output@),
{
    let quoted = quote_doubled_of(output);
    let script = screenshot_script_of(quoted.as_str());
    let mut message = "Screenshot saved to: ".to_owned();
    message.append(output);
    Step::Run { script, message }
}

/// The step that performs an action.
pub fn plan(action: &Action) -> (r: Result<Step, String>)
    ensures
        match *action {
            Action::Click { x, y, button } => r matches Ok(s) && runs(
                s,
                click_script_text(
                    dec_int(x as int),
                    dec_int(y as int),
                    if unicode_lower(button@) == "right"@ { "0x0008"@ } else { "0x0002"@ },
                    if unicode_lower(button@) == "right"@ { "0x0010"@ } else { "0x0004"@ },
                ),
                "Clicked "@ + button@ + " at ("@ + dec_int(x as int) + ", "@ + dec_int(y as int) + ")"@,
            ),
            Action::Move { x, y } => r matches Ok(s) && runs(
                s,
                move_script_text(dec_int(x as int), dec_int(y as int)),
                "Moved to ("@ + dec_int(x as int) + ", "@ + dec_int(y as int) + ")"@,
            ),
            Action::Type { text } => r matches Ok(s) && runs(s, type_script_text(typed_text(text@)), "Typed: "@ + text@),
            Action::Key { combo } => match combo_notation(unicode_lower(combo@)) {
                Ok(n) => r matches Ok(s) && runs(s, key_script_text(n), "Sent key combo: "@ + combo@ + " -> "@ + n),
                Err(m) => r matches Err(e) && e@ == unknown_modifier_message(m),
            },
            Action::Wait { ms } => r matches Ok(Step::Wait { ms: w, message }) && w == ms && message@ == "Waited "@
                + dec(ms as nat) + "ms"@,
            Action::Screenshot { output } => r matches Ok(s) && runs(
                s,
                screenshot_script_text(quote_doubled(output@)),
                "Screenshot saved to: "@ + output@,
            ),
        },
{
    match action {
        Action::Click { x, y, button } => Ok(plan_click(*x, *y, button.as_str())),
        Action::Move { x, y } => Ok(plan_move(*x, *y)),
        Action::Type { text } => Ok(plan_type(text.as_str())),
        Action::Key { combo } => plan_key(combo.as_str()),
        Action::Wait { ms } => {
            let mut message = "Waited ".to_owned();
            message.append(string_of(&u64_to_dec(*ms)).as_str());
            message.append("ms");
            Ok(Step::Wait { ms: *ms, message })
        },
        Action::Screenshot { output } => Ok(plan_screenshot(output.as_str())),
    }
}

} // verus!
