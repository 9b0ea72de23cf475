use vstd::prelude::*;

verus! {

/// A value in the unit interval, held exactly as `numerator / denominator`.
#[derive(Debug, Clone, Copy, PartialEq, Eq, Structural)]
pub struct Ratio {
    pub numerator: u16,
    pub denominator: u16,
}

impl Ratio {
    /// A well-formed ratio has a positive denominator and lies in `[0, 1]`.
    pub open spec fn wf(self) -> bool {
        0 < self.denominator && self.numerator <= self.denominator
    }

    /// `self <= other` as rational numbers.
    pub open spec fn le(self, other: Ratio) -> bool {
        (self.numerator as int) * (other.denominator as int) <= (other.numerator as int) * (
        self.denominator as int)
    }
}

} // verus!
