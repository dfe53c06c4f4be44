//! A shelf: one horizontal interval at one level of the grid.

use vstd::prelude::*;

verus! {

/// A shelf at row `level`, spanning the grid columns from `start` to `end`.
///
/// Shelves are plain values: two shelves are the same shelf exactly when
/// their three fields agree.
#[derive(Clone, Copy, Debug, PartialEq, Eq, Hash, Structural)]
pub struct ShelfPosition {
    pub level: u32,
    pub start: i32,
    pub end: i32,
}

/// Half of `x`, rounded toward zero.
pub open spec fn half_toward_zero(x: int) -> int {
    if x >= 0 {
        x / 2
    } else {
        -((-x) / 2)
    }
}

impl ShelfPosition {
    /// A shelf has a non-empty span: it starts strictly before it ends.
    pub open spec fn well_formed(&self) -> bool {
        self.start < self.end
    }

    /// The sum of the two edges, twice the midpoint of the span.
    pub open spec fn edge_sum(&self) -> int {
        self.start + self.end
    }

    /// Two shelves overlap when they lie on one level and their half-open
    /// spans `[start, end)` share a column.
    pub open spec fn overlaps(&self, other: &ShelfPosition) -> bool {
        &&& self.level == other.level
        &&& self.start < other.end
        &&& other.start < self.end
    }

    /// Builds a shelf, or nothing when the span would be empty or reversed.
    pub fn new(level: u32, start: i32, end: i32) -> (shelf: Option<ShelfPosition>)
        ensures
            start < end ==> shelf == Some(ShelfPosition { level, start, end }),
            start >= end ==> shelf is None,
    {
        if start < end {
            Some(ShelfPosition { level, start, end })
        } else {
            None
        }
    }

    /// Tells whether the span is non-empty.
    pub fn is_well_formed(&self) -> (ok: bool)
        ensures
            ok == self.well_formed(),
    {
        self.start < self.end
    }

    /// Computes `start + end` without overflow.
    pub fn midpoint_sum(&self) -> (sum: i64)
        ensures
            sum == self.edge_sum(),
    {
        self.start as i64 + self.end as i64
    }

    /// Tells whether this shelf and `other` overlap.
    pub fn overlaps_with(&self, other: &ShelfPosition) -> (hit: bool)
        ensures
            hit == self.overlaps(other),
    {
        self.level == other.level && self.start < other.end && other.start < self.end
    }

    /// The grid column at the middle of the span, rounded toward zero.
    pub fn center(&self) -> (column: i32)
        ensures
            column == half_toward_zero(self.edge_sum()),
    {
        let sum: i64 = self.midpoint_sum();
        let half: i64 = sum / 2;
        half as i32
    }
}

} // verus!
