//! Decisions of the screen watcher: whether a captured frame differs from the
//! last one, when to stop, and the names of saved frames.
use vstd::prelude::*;

verus! {

/// State of a running watch.
#[derive(Debug, Clone, Copy, PartialEq, Eq, Structural)]
pub struct WatchState {
    /// Hash of the last frame that was reported as a change.
    pub last_hash: Option<u64>,
    /// Number of captures made so far.
    pub cycle: u64,
}

impl WatchState {
    pub fn new() -> (r: WatchState)
        ensures
            r.last_hash is None,
            r.cycle == 0,
    {
        WatchState { last_hash: None, cycle: 0 }
    }

    /// Records a captured frame's hash; true when it differs from the last
    /// reported one (always for the first frame), which it then becomes.
    pub fn observe(&mut self, hash: u64) -> (changed: bool)
        ensures
            changed == (match old(self).last_hash {
                Some(p) => p != hash,
                None => true,
            }),
            final(self).last_hash == (if changed {
                Some(hash)
            } else {
                old(self).last_hash
            }),
            final(self).cycle == old(self).cycle,
    {
        let changed = match self.last_hash {
            Some(p) => p != hash,
            None => true,
        };
        if changed {
            self.last_hash = Some(hash);
        }
        changed
    }

    /// Counts a finished capture; true when the watch should stop, having
    /// made `max_cycles` captures.
    pub fn end_cycle(&mut self, max_cycles: Option<u64>) -> (stop: bool)
        requires
            old(self).cycle < u64::MAX,
        ensures
            final(self).cycle == old(self).cycle + 1,
            final(self).last_hash == old(self).last_hash,
            stop == (match max_cycles {
                Some(m) => final(self).cycle >= m,
                None => false,
            }),
    {
        self.cycle = self.cycle + 1;
        match max_cycles {
            Some(m) => self.cycle >= m,
            None => false,
        }
    }
}

/// Lowercase hexadecimal digit of `d`.
pub open spec fn hex_char(d: nat) -> char {
    if d < 10 {
        ((d + 48) as u32) as char
    } else {
        ((d + 87) as u32) as char
    }
}

/// The last `k` hexadecimal digits of `n`, most significant first.
pub open spec fn hex_digits(n: nat, k: nat) -> Seq<char>
    decreases k,
{
    if k == 0 {
        Seq::empty()
    } else {
        hex_digits(n / 16, (k - 1) as nat).push(hex_char(n % 16))
    }
}

fn hex16(n: u64) -> (r: Vec<char>)
    ensures
        r@ == hex_digits(n as nat, 16),
{
    let mut out: Vec<char> = Vec::new();
    let mut m = n;
    let mut k: u64 = 0;
    while k < 16
        invariant
            k <= 16,
            hex_digits(n as nat, 16) == hex_digits(m as nat, (16 - k) as nat) + out@,
        decreases 16 - k,
    {
        let d = m % 16;
        let c = if d < 10 {
            ((d + 48) as u8) as char
        } else {
            ((d + 87) as u8) as char
        };
        assert(c == hex_char(d as nat));
        let ghost prev = out@;
        out.insert(0, c);
        let ghost old_m = m;
        m = m / 16;
        assert(hex_digits(old_m as nat, (16 - k) as nat) == hex_digits(m as nat, (16 - k - 1) as nat).push(c));
        assert(out@ =~= seq![c] + prev);
        assert(hex_digits(m as nat, (16 - k - 1) as nat).push(c) + prev =~= hex_digits(m as nat, (16 - k - 1) as nat) + out@);
        k = k + 1;
    }
    assert(hex_digits(m as nat, 0) =~= Seq::<char>::empty());
    assert(out@ =~= hex_digits(n as nat, 16));
    out
}

/// File name of a saved frame: `frame_<timestamp>_<hash as 16 hex digits>.png`.
pub fn frame_name(timestamp: &str, hash: u64) -> (r: String)
    ensures
        r@ == "frame_"@ + timestamp@ + "_"@ + hex_digits(hash as nat, 16) + ".png"@,
{
    let mut s = "frame_".to_owned();
    s.append(timestamp);
    s.append("_");
    s.append(crate::text::string_of(&hex16(hash)).as_str());
    s.append(".png");
    s
}

} // verus!
