//! Parsing of a screen region given as `x,y,w,h`.
use vstd::prelude::*;
use crate::text::{
    chars_of, parse_integer, parse_integer_vec, split_char, split_vec, string_of, trim, trim_vec,
    views, IntErrorKind,
};

verus! {

/// Why a region specification was refused.
#[derive(Debug, Clone, Copy, PartialEq, Eq, Structural)]
pub enum RegionError {
    /// Not exactly four comma-separated parts.
    PartCount,
    /// A part is not an `i32`.
    Parse(IntErrorKind),
    /// Width or height is zero or negative.
    NonPositiveSize,
}

impl RegionError {
    /// The message shown for this error.
    pub fn message(&self) -> (r: String)
        ensures
            r@ == region_error_message(*self),
    {
        match self {
            RegionError::PartCount => "expected exactly 4 comma-separated integers".to_owned(),
            RegionError::Parse(k) => {
                let mut s = "parse error: ".to_owned();
                s.append(k.message());
                s
            },
            RegionError::NonPositiveSize => "width and height must be positive".to_owned(),
        }
    }
}

pub open spec fn region_error_message(e: RegionError) -> Seq<char> {
    match e {
        RegionError::PartCount => "expected exactly 4 comma-separated integers"@,
        RegionError::Parse(k) => "parse error: "@ + crate::text::int_error_message(k),
        RegionError::NonPositiveSize => "width and height must be positive"@,
    }
}

pub open spec fn parse_i32(s: Seq<char>) -> Result<int, IntErrorKind> {
    parse_integer(trim(s), i32::MIN as int, i32::MAX as int)
}

/// The first parse failure among the parts, in order.
pub open spec fn first_failure(parts: Seq<Seq<char>>) -> Option<IntErrorKind>
    decreases parts.len(),
{
    if parts.len() == 0 {
        None
    } else {
        match parse_i32(parts[0]) {
            Err(k) => Some(k),
            Ok(_) => first_failure(parts.drop_first()),
        }
    }
}

/// The region denoted by `s`: four comma-separated `i32` values, trimmed,
/// with a positive width and height.
pub open spec fn region(s: Seq<char>) -> Result<(int, int, int, int), RegionError> {
    let parts = split_char(s, ',');
    if parts.len() != 4 {
        Err(RegionError::PartCount)
    } else {
        match first_failure(parts) {
            Some(k) => Err(RegionError::Parse(k)),
            None => {
                let x = parse_i32(parts[0])->Ok_0;
                let y = parse_i32(parts[1])->Ok_0;
                let w = parse_i32(parts[2])->Ok_0;
                let h = parse_i32(parts[3])->Ok_0;
                if w <= 0 || h <= 0 {
                    Err(RegionError::NonPositiveSize)
                } else {
                    Ok((x, y, w, h))
                }
            },
        }
    }
}

/// Parses a region spec `"x,y,w,h"` into four `i32` values.
pub fn parse_region(s: &str) -> (r: Result<(i32, i32, i32, i32), RegionError>)
    ensures
        match r {
            Ok((x, y, w, h)) => region(s@) == Ok::<(int, int, int, int), RegionError>(
                (x as int, y as int, w as int, h as int),
            ),
            Err(e) => region(s@) == Err::<(int, int, int, int), RegionError>(e),
        },
{
    let v = chars_of(s);
    let parts = split_vec(&v, ',');
    let ghost pv = views(parts@);
    if parts.len() != 4 {
        return Err(RegionError::PartCount);
    }
    assert(pv.len() == 4);
    let mut nums: Vec<i32> = Vec::new();
    let mut i: usize = 0;
    assert(pv.skip(0) =~= pv);
    while i < 4
        invariant
            i <= 4,
            parts.len() == 4,
            pv == views(parts@),
            pv == split_char(s@, ','),
            nums@.len() == i,
            forall|j: int| 0 <= j < i ==> parse_i32(pv[j]) == Ok::<int, IntErrorKind>(nums@[j] as int),
            first_failure(pv) == first_failure(pv.skip(i as int)),
        decreases 4 - i,
    {
        let ghost rest = pv.skip(i as int);
        assert(rest[0] == parts@[i as int]@);
        assert(rest.drop_first() =~= pv.skip(i + 1));
        let t = trim_vec(&parts[i]);
        assert(parse_i32(rest[0]) == parse_integer(t@, i32::MIN as int, i32::MAX as int));
        match parse_integer_vec(&t, -2147483648, 2147483647) {
            Ok(n) => {
                let ghost before = nums@;
                nums.push(n as i32);
                assert(nums@[i as int] == n);
                assert forall|j: int| 0 <= j < i + 1 implies parse_i32(pv[j]) == Ok::<int, IntErrorKind>(nums@[j] as int) by {
                    if j < i {
                        assert(nums@[j] == before[j]);
                    }
                }
            },
            Err(k) => {
                assert(first_failure(rest) == Some(k));
                assert(first_failure(pv) == Some(k));
                assert(split_char(s@, ',') == pv);
                assert(region(s@) == Err::<(int, int, int, int), RegionError>(RegionError::Parse(k)));
                return Err(RegionError::Parse(k));
            },
        }
        i = i + 1;
    }
    assert(pv.skip(4) =~= Seq::<Seq<char>>::empty());
    if nums[2] <= 0 || nums[3] <= 0 {
        return Err(RegionError::NonPositiveSize);
    }
    Ok((nums[0], nums[1], nums[2], nums[3]))
}

/// Every accepted region has a positive width and height.
pub proof fn lemma_region_positive(s: Seq<char>)
    requires
        region(s) is Ok,
    ensures
        region(s)->Ok_0.2 > 0,
        region(s)->Ok_0.3 > 0,
{
}

} // verus!
