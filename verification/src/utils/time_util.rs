//! Splitting a number of seconds into hours, minutes and seconds.

use vstd::prelude::*;

verus! {

/// A duration broken into hours, minutes and seconds.
#[derive(Debug, Clone, Copy, PartialEq, Eq, Structural)]
pub struct HMS {
    pub hours: i32,
    pub minutes: i32,
    pub seconds: i32,
}

impl HMS {
    /// The number of seconds that the three parts add up to.
    pub open spec fn total(self) -> int {
        self.hours * 3600 + self.minutes * 60 + self.seconds
    }

    /// The parts are in their clock ranges and share the sign of `total`:
    /// minutes and seconds stay strictly within one hour and one minute,
    /// and no part points the other way than the whole.
    pub open spec fn normalized_for(self, total: int) -> bool {
        &&& total >= 0 ==> self.hours >= 0 && 0 <= self.minutes < 60 && 0 <= self.seconds < 60
        &&& total <= 0 ==> self.hours <= 0 && -60 < self.minutes <= 0 && -60 < self.seconds <= 0
    }
}

/// Quotient of `a` by a positive `b`, rounded toward zero.
pub open spec fn div_toward_zero(a: int, b: int) -> int
    recommends
        b > 0,
{
    if a >= 0 {
        a / b
    } else {
        -((-a) / b)
    }
}

/// Remainder that goes with `div_toward_zero`: it has the sign of `a`.
pub open spec fn rem_toward_zero(a: int, b: int) -> int
    recommends
        b > 0,
{
    a - div_toward_zero(a, b) * b
}

/// Breaks `seconds` into hours, minutes and seconds.
///
/// The parts always add up to `seconds` again. For a negative input every
/// part is zero or negative, as integer division rounds toward zero.
pub fn sec_to_hms(seconds: i32) -> (hms: HMS)
    ensures
        hms.total() == seconds,
        hms.normalized_for(seconds as int),
        hms.hours == div_toward_zero(seconds as int, 3600),
        hms.minutes == div_toward_zero(rem_toward_zero(seconds as int, 3600), 60),
        hms.seconds == rem_toward_zero(seconds as int, 60),
{
    let h: i32 = seconds / 3600;
    let m: i32 = (seconds % 3600) / 60;
    let s: i32 = seconds % 60;
    HMS { hours: h, minutes: m, seconds: s }
}

/// A split is determined by its total: two normalized splits of the same
/// number of seconds are the same split.
pub proof fn lemma_hms_unique(a: HMS, b: HMS, total: int)
    requires
        a.total() == total,
        b.total() == total,
        a.normalized_for(total),
        b.normalized_for(total),
    ensures
        a == b,
{
}

} // verus!
