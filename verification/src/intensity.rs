//! The operator's dial: a percentage between 0 and 100, kept in tenths.

use vstd::prelude::*;

verus! {

/// Largest value of the dial, in tenths of a percent (100.0%).
pub const MAX_TENTHS: u16 = 1000;

/// Tenths of a percent that a fresh configuration starts from (50.0%).
pub const DEFAULT_TENTHS: u16 = 500;

/// `raw` forced into the range of the dial.
pub open spec fn clamp_tenths(raw: int) -> int {
    if raw < 0 {
        0
    } else if raw > MAX_TENTHS as int {
        MAX_TENTHS as int
    } else {
        raw
    }
}

/// A dial position. The value is held in tenths of a percent, which is the
/// resolution every report prints, and never leaves `0..=1000`.
#[derive(Clone, Copy, Debug, PartialEq, Eq, Structural)]
pub struct Intensity {
    tenths: u16,
}

impl View for Intensity {
    type V = int;

    /// The dial position in tenths of a percent.
    closed spec fn view(&self) -> int {
        self.tenths as int
    }
}

impl Intensity {
    #[verifier::type_invariant]
    spec fn in_range(self) -> bool {
        self.tenths <= MAX_TENTHS
    }

    /// The position `raw` tenths of a percent, or the nearest end of the
    /// dial when `raw` lies outside it.
    pub fn from_tenths(raw: i64) -> (r: Intensity)
        ensures
            r@ == clamp_tenths(raw as int),
            0 <= r@ <= MAX_TENTHS,
    {
        if raw < 0 {
            Intensity { tenths: 0 }
        } else if raw > MAX_TENTHS as i64 {
            Intensity { tenths: MAX_TENTHS }
        } else {
            Intensity { tenths: raw as u16 }
        }
    }

    /// The position `percent` whole percent, or 100% when `percent` is larger.
    pub fn from_percent(percent: u32) -> (r: Intensity)
        ensures
            r@ == clamp_tenths(10 * percent),
            percent <= 100 ==> r@ == 10 * percent,
    {
        if percent > 100 {
            Intensity { tenths: MAX_TENTHS }
        } else {
            Intensity { tenths: (percent * 10) as u16 }
        }
    }

    /// The dial position in tenths of a percent.
    pub fn tenths(&self) -> (t: u16)
        ensures
            t as int == self@,
            t <= MAX_TENTHS,
    {
        proof {
            use_type_invariant(self);
        }
        self.tenths
    }
}

impl Default for Intensity {
    /// The position a fresh configuration starts from: 50.0%.
    fn default() -> (r: Intensity)
        ensures
            r@ == DEFAULT_TENTHS,
    {
        Intensity { tenths: DEFAULT_TENTHS }
    }
}

} // verus!
