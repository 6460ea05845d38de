//! Screen-capture scripts and the screen-size query's output.
use vstd::prelude::*;
use crate::text::{
    chars_of, dec_int, i64_to_dec, parse_integer, parse_integer_vec, split_once, split_once_vec,
    string_of, trim, trim_vec, IntErrorKind,
};

verus! {

/// `s` with every backslash doubled, as a PowerShell single-quoted path
/// inside the capture scripts needs.
pub open spec fn double_backslashes(s: Seq<char>) -> Seq<char>
    decreases s.len(),
{
    if s.len() == 0 {
        Seq::empty()
    } else {
        double_backslashes(s.drop_last()) + (if s.last() == '\\' {
            seq!['\\', '\\']
        } else {
            seq![s.last()]
        })
    }
}

fn double_backslashes_vec(v: &Vec<char>) -> (r: Vec<char>)
    ensures
        r@ == double_backslashes(v@),
{
    let mut out: Vec<char> = Vec::new();
    let mut i: usize = 0;
    while i < v.len()
        invariant
            i <= v.len(),
            out@ == double_backslashes(v@.take(i as int)),
        decreases v.len() - i,
    {
        let ghost t = v@.take(i + 1);
        assert(t.drop_last() =~= v@.take(i as int));
        if v[i] == '\\' {
            out.push('\\');
            out.push('\\');
        } else {
            out.push(v[i]);
        }
        assert(out@ =~= double_backslashes(t));
        i = i + 1;
    }
    assert(v@.take(v.len() as int) =~= v@);
    out
}

pub open spec fn screen_script_head() -> Seq<char> {
    "Add-Type -AssemblyName System.Windows.Forms\nAdd-Type -AssemblyName System.Drawing\n$screen  = [System.Windows.Forms.Screen]::PrimaryScreen\n$bitmap  = New-Object System.Drawing.Bitmap($screen.Bounds.Width, $screen.Bounds.Height)\n$gfx     = [System.Drawing.Graphics]::FromImage($bitmap)\n$gfx.CopyFromScreen($screen.Bounds.Location, [System.Drawing.Point]::Empty, $screen.Bounds.Size)\n$bitmap.Save('"@
}

pub open spec fn script_tail() -> Seq<char> {
    "')\n$gfx.Dispose()\n$bitmap.Dispose()"@
}

/// PowerShell script that captures the primary screen to the PNG file at
/// `output`.
pub fn capture_screen_script(output: &str) -> (r: String)
    ensures
        r@ == screen_script_head() + double_backslashes(output@) + script_tail(),
{
    let p = double_backslashes_vec(&chars_of(output));
    let mut s = "Add-Type -AssemblyName System.Windows.Forms\nAdd-Type -AssemblyName System.Drawing\n$screen  = [System.Windows.Forms.Screen]::PrimaryScreen\n$bitmap  = New-Object System.Drawing.Bitmap($screen.Bounds.Width, $screen.Bounds.Height)\n$gfx     = [System.Drawing.Graphics]::FromImage($bitmap)\n$gfx.CopyFromScreen($screen.Bounds.Location, [System.Drawing.Point]::Empty, $screen.Bounds.Size)\n$bitmap.Save('".to_owned();
    s.append(string_of(&p).as_str());
    s.append("')\n$gfx.Dispose()\n$bitmap.Dispose()");
    s
}

/// PowerShell script that captures the rectangle at (`x`, `y`) of size
/// `w` by `h` to the PNG file at `output`.
pub fn capture_region_script(output: &str, x: i32, y: i32, w: i32, h: i32) -> (r: String)
    ensures
        r@ == "Add-Type -AssemblyName System.Drawing\n$bitmap = New-Object System.Drawing.Bitmap("@
            + dec_int(w as int) + ", "@ + dec_int(h as int)
            + ")\n$gfx    = [System.Drawing.Graphics]::FromImage($bitmap)\n$src    = New-Object System.Drawing.Point("@
            + dec_int(x as int) + ", "@ + dec_int(y as int)
            + ")\n$dst    = [System.Drawing.Point]::Empty\n$size   = New-Object System.Drawing.Size("@
            + dec_int(w as int) + ", "@ + dec_int(h as int)
            + ")\n$gfx.CopyFromScreen($src, $dst, $size)\n$bitmap.Save('"@ + double_backslashes(output@)
            + script_tail(),
{
    let p = double_backslashes_vec(&chars_of(output));
    let ws = string_of(&i64_to_dec(w as i64));
    let hs = string_of(&i64_to_dec(h as i64));
    let xs = string_of(&i64_to_dec(x as i64));
    let ys = string_of(&i64_to_dec(y as i64));
    let mut s = "Add-Type -AssemblyName System.Drawing\n$bitmap = New-Object System.Drawing.Bitmap(".to_owned();
    s.append(ws.as_str());
    s.append(", ");
    s.append(hs.as_str());
    s.append(")\n$gfx    = [System.Drawing.Graphics]::FromImage($bitmap)\n$src    = New-Object System.Drawing.Point(");
    s.append(xs.as_str());
    s.append(", ");
    s.append(ys.as_str());
    s.append(")\n$dst    = [System.Drawing.Point]::Empty\n$size   = New-Object System.Drawing.Size(");
    s.append(ws.as_str());
    s.append(", ");
    s.append(hs.as_str());
    s.append(")\n$gfx.CopyFromScreen($src, $dst, $size)\n$bitmap.Save('");
    s.append(string_of(&p).as_str());
    s.append("')\n$gfx.Dispose()\n$bitmap.Dispose()");
    s
}

pub open spec fn parse_u32(s: Seq<char>) -> Result<int, IntErrorKind> {
    parse_integer(s, 0, u32::MAX as int)
}

/// Screen size reported by the size query as `WIDTHxHEIGHT`, or 1920 by
/// 1080 where the output is not of that form.
pub open spec fn screen_size_of(output: Seq<char>) -> (int, int) {
    match split_once(trim(output), 'x') {
        Some((a, b)) => match (parse_u32(a), parse_u32(b)) {
            (Ok(w), Ok(h)) => (w, h),
            _ => (1920, 1080),
        },
        None => (1920, 1080),
    }
}

/// Reads the screen size from the size query's output (`None` where the
/// query failed), falling back to 1920 by 1080.
pub fn parse_screen_size(output: Option<&str>) -> (r: (u32, u32))
    ensures
        r == (match output {
            Some(o) => {
                let (w, h) = screen_size_of(o@);
                (w as u32, h as u32)
            },
            None => (1920u32, 1080u32),
        }),
        r.0 > 0 && r.1 > 0 || output is Some,
{
    match output {
        None => (1920, 1080),
        Some(o) => {
            let t = trim_vec(&chars_of(o));
            match split_once_vec(&t, 'x') {
                Some((a, b)) => match (parse_integer_vec(&a, 0, 0xffff_ffff), parse_integer_vec(&b, 0, 0xffff_ffff)) {
                    (Ok(w), Ok(h)) => (w as u32, h as u32),
                    _ => (1920, 1080),
                },
                None => (1920, 1080),
            }
        },
    }
}

} // verus!
