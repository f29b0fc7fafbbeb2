//! Half-open ranges with merging and splitting.

use vstd::prelude::*;

verus! {

/// A range of values; the end is exclusive.
#[derive(Debug, Clone, Copy, PartialEq, Eq, Hash, Structural)]
pub struct BetterRange {
    pub start: usize,
    pub end: usize,
}

/// Where the split value lands when a range is cut at it.
pub enum RangeSplitBehavior {
    IncludeLower,
    IncludeUpper,
    Exclude,
}

/// Whether `r` contains `v`.
pub open spec fn spec_contains(r: BetterRange, v: usize) -> bool {
    r.start <= v < r.end
}

/// Whether `outer` contains all of `inner`.
pub open spec fn spec_contains_range(outer: BetterRange, inner: BetterRange) -> bool {
    outer.start <= inner.start && inner.end <= outer.end
}

/// The merge of two ranges: the enclosing one if one contains the other,
/// their union if they overlap or touch, nothing otherwise.
pub open spec fn spec_merge(a: BetterRange, b: BetterRange) -> Option<BetterRange> {
    if spec_contains_range(a, b) {
        Some(a)
    } else if spec_contains_range(b, a) {
        Some(b)
    } else if spec_contains(a, b.start) || a.end == b.start {
        Some(BetterRange { start: a.start, end: b.end })
    } else if spec_contains(a, b.end) || b.end == a.start {
        Some(BetterRange { start: b.start, end: a.end })
    } else {
        None
    }
}

impl BetterRange {
    /// The range from `start` up to, and excluding, `end`.
    pub fn new(start: usize, end: usize) -> (r: Self)
        ensures
            r == (BetterRange { start, end }),
    {
        BetterRange { start, end }
    }

    /// Whether the range contains the given value.
    pub fn contains(&self, value: &usize) -> (r: bool)
        ensures
            r == spec_contains(*self, *value),
    {
        self.start <= *value && *value < self.end
    }

    /// Whether the range contains all of the given range.
    pub fn contains_range(&self, other: &Self) -> (r: bool)
        ensures
            r == spec_contains_range(*self, *other),
    {
        self.start <= other.start && other.end <= self.end
    }

    /// Merge this range with another; ranges that neither overlap nor touch
    /// do not merge.
    pub fn merge(&self, other: &Self) -> (r: Option<Self>)
        ensures
            r == spec_merge(*self, *other),
    {
        if self.contains_range(other) {
            Some(*self)
        } else if other.contains_range(self) {
            Some(*other)
        } else if self.contains(&other.start) || self.end == other.start {
            Some(Self::new(self.start, other.end))
        } else if self.contains(&other.end) || other.end == self.start {
            Some(Self::new(other.start, self.end))
        } else {
            None
        }
    }

    /// Split the range at `value`, which the behaviour assigns to the lower
    /// part, the upper part, or neither; a value outside the range splits
    /// nothing.
    pub fn split(&self, value: &usize, behaviour: RangeSplitBehavior) -> (r: (
        Option<Self>,
        Option<Self>,
    ))
        ensures
            !spec_contains(*self, *value) ==> r == (
                Option::<BetterRange>::None,
                Option::<BetterRange>::None,
            ),
            spec_contains(*self, *value) ==> r == (match behaviour {
                RangeSplitBehavior::IncludeLower => (
                    Some(BetterRange { start: self.start, end: (*value + 1) as usize }),
                    Some(BetterRange { start: (*value + 1) as usize, end: self.end }),
                ),
                RangeSplitBehavior::IncludeUpper => (
                    Some(BetterRange { start: self.start, end: *value }),
                    Some(BetterRange { start: *value, end: self.end }),
                ),
                RangeSplitBehavior::Exclude => (
                    Some(BetterRange { start: self.start, end: *value }),
                    Some(BetterRange { start: (*value + 1) as usize, end: self.end }),
                ),
            }),
    {
        if self.contains(value) {
            match behaviour {
                RangeSplitBehavior::IncludeLower => (
                    Some(Self::new(self.start, *value + 1)),
                    Some(Self::new(*value + 1, self.end)),
                ),
                RangeSplitBehavior::IncludeUpper => (
                    Some(Self::new(self.start, *value)),
                    Some(Self::new(*value, self.end)),
                ),
                RangeSplitBehavior::Exclude => (
                    Some(Self::new(self.start, *value)),
                    Some(Self::new(*value + 1, self.end)),
                ),
            }
        } else {
            (None, None)
        }
    }
}

} // verus!
