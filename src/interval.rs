use vstd::prelude::*;

verus! {

/// A span of time, held as a whole number of milliseconds.
///
/// Every value built from a count of seconds or of milliseconds in `u64`
/// fits, so no constructor can overflow.
#[derive(Clone, Copy, Debug, PartialEq, Eq, Structural)]
pub struct Interval {
    millis: u128,
}

impl View for Interval {
    type V = nat;

    /// The length of the span, in milliseconds.
    closed spec fn view(&self) -> nat {
        self.millis as nat
    }
}

impl Interval {
    /// A span of `ms` milliseconds.
    pub fn from_millis(ms: u64) -> (r: Interval)
        ensures
            r@ == ms as nat,
    {
        Interval { millis: ms as u128 }
    }

    /// A span of `s` seconds.
    pub fn from_secs(s: u64) -> (r: Interval)
        ensures
            r@ == s as nat * 1000,
    {
        Interval { millis: (s as u128) * 1000 }
    }

    /// A span of `ms` milliseconds, for lengths past what `u64` holds.
    pub(crate) fn from_millis_wide(ms: u128) -> (r: Interval)
        ensures
            r@ == ms as nat,
    {
        Interval { millis: ms }
    }

    /// The length of the span in milliseconds.
    pub fn as_millis(&self) -> (r: u128)
        ensures
            r as nat == self@,
    {
        self.millis
    }
}

} // verus!
