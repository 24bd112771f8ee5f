//! Numeric ranges.

use vstd::prelude::*;

verus! {

/// The legal values of a numeric setting: from `min` to `max`, both
/// included, in steps of `step` from `min`.
#[derive(Clone, Copy, Debug, PartialEq, Eq, Hash)]
pub struct Range<T> {
    pub min: T,
    pub max: T,
    pub step: T,
}

impl Range<i32> {
    /// The range is not empty and its step goes forward.
    pub open spec fn wf(self) -> bool {
        self.min <= self.max && self.step >= 1
    }

    /// Whether a value is one of the range's values.
    pub open spec fn spec_contains(self, value: i32) -> bool {
        &&& self.step >= 1
        &&& self.min <= value <= self.max
        &&& (value - self.min) % (self.step as int) == 0
    }

    /// Exec counterpart of [`Range::spec_contains`].
    pub fn contains(&self, value: i32) -> (r: bool)
        ensures
            r == self.spec_contains(value),
    {
        if self.step < 1 || value < self.min || value > self.max {
            return false;
        }
        let distance: i64 = value as i64 - self.min as i64;
        distance % (self.step as i64) == 0
    }
}

} // verus!
