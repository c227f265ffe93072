//! How a measured value lies relative to a threshold. The measurements are
//! made by the caller; the rules here decide on their outcome.
use vstd::prelude::*;

verus! {

/// Where a value lies relative to a threshold; `Unordered` where the two
/// cannot be compared (a value that is not a number).
#[derive(PartialEq, Eq, Structural, Clone, Copy, Debug)]
pub enum Placement {
    Below,
    At,
    Above,
    Unordered,
}

impl Placement {
    /// The value is greater than the threshold.
    pub open spec fn above(self) -> bool {
        self == Placement::Above
    }

    /// The value is less than the threshold.
    pub open spec fn below(self) -> bool {
        self == Placement::Below
    }

    /// The value is less than or equal to the threshold.
    pub open spec fn at_most(self) -> bool {
        self == Placement::Below || self == Placement::At
    }

    /// The value is greater than or equal to the threshold.
    pub open spec fn at_least(self) -> bool {
        self == Placement::At || self == Placement::Above
    }

    /// Whether the value is greater than the threshold.
    pub fn is_above(&self) -> (r: bool)
        ensures
            r == self.above(),
    {
        *self == Placement::Above
    }

    /// Whether the value is less than the threshold.
    pub fn is_below(&self) -> (r: bool)
        ensures
            r == self.below(),
    {
        *self == Placement::Below
    }

    /// Whether the value is at most the threshold.
    pub fn is_at_most(&self) -> (r: bool)
        ensures
            r == self.at_most(),
    {
        *self == Placement::Below || *self == Placement::At
    }

    /// Whether the value is at least the threshold.
    pub fn is_at_least(&self) -> (r: bool)
        ensures
            r == self.at_least(),
    {
        *self == Placement::At || *self == Placement::Above
    }
}

} // verus!
