//! Axis-aligned rectangles in device pixel space.
//!
//! Union and intersection are exact integer operations: rectangles map one to
//! one onto hardware refresh windows, so no rounding is tolerable.

use vstd::prelude::*;

verus! {

/// An axis-aligned rectangle: the half-open box `[min_x, max_x) x [min_y, max_y)`.
#[derive(Clone, Copy, Debug, PartialEq, Eq, Structural)]
pub struct Rectangle {
    pub min_x: i32,
    pub min_y: i32,
    pub max_x: i32,
    pub max_y: i32,
}

impl Rectangle {
    /// A rectangle is well formed when it lies in the device's non-negative
    /// pixel space and its corners are ordered.
    pub open spec fn well_formed(self) -> bool {
        0 <= self.min_x <= self.max_x && 0 <= self.min_y <= self.max_y
    }

    /// Two rectangles overlap when the open interiors share at least one pixel.
    pub open spec fn spec_overlaps(self, other: Rectangle) -> bool {
        self.min_x < other.max_x && other.min_x < self.max_x
            && self.min_y < other.max_y && other.min_y < self.max_y
    }

    /// `self` lies entirely inside `other`.
    pub open spec fn spec_contains(self, other: Rectangle) -> bool {
        other.min_x <= self.min_x && self.max_x <= other.max_x
            && other.min_y <= self.min_y && self.max_y <= other.max_y
    }

    pub fn new(min_x: i32, min_y: i32, max_x: i32, max_y: i32) -> (r: Rectangle)
        requires
            0 <= min_x <= max_x,
            0 <= min_y <= max_y,
        ensures
            r == (Rectangle { min_x, min_y, max_x, max_y }),
            r.well_formed(),
    {
        Rectangle { min_x, min_y, max_x, max_y }
    }

    pub fn width(&self) -> (w: u32)
        requires
            self.well_formed(),
        ensures
            w == self.max_x - self.min_x,
    {
        (self.max_x - self.min_x) as u32
    }

    pub fn height(&self) -> (h: u32)
        requires
            self.well_formed(),
        ensures
            h == self.max_y - self.min_y,
    {
        (self.max_y - self.min_y) as u32
    }

    /// True iff the two rectangles share at least one pixel.
    pub fn overlaps(&self, other: &Rectangle) -> (r: bool)
        ensures
            r == self.spec_overlaps(*other),
    {
        self.min_x < other.max_x && other.min_x < self.max_x
            && self.min_y < other.max_y && other.min_y < self.max_y
    }

    /// True iff `self` lies entirely inside `other`.
    pub fn contained_in(&self, other: &Rectangle) -> (r: bool)
        ensures
            r == self.spec_contains(*other),
    {
        other.min_x <= self.min_x && self.max_x <= other.max_x
            && other.min_y <= self.min_y && self.max_y <= other.max_y
    }

    /// The smallest rectangle containing both operands.
    pub fn merge(&self, other: &Rectangle) -> (r: Rectangle)
        requires
            self.well_formed(),
            other.well_formed(),
        ensures
            r.well_formed(),
            self.spec_contains(r),
            other.spec_contains(r),
            r.min_x == if self.min_x <= other.min_x { self.min_x } else { other.min_x },
            r.min_y == if self.min_y <= other.min_y { self.min_y } else { other.min_y },
            r.max_x == if self.max_x >= other.max_x { self.max_x } else { other.max_x },
            r.max_y == if self.max_y >= other.max_y { self.max_y } else { other.max_y },
    {
        Rectangle {
            min_x: if self.min_x <= other.min_x { self.min_x } else { other.min_x },
            min_y: if self.min_y <= other.min_y { self.min_y } else { other.min_y },
            max_x: if self.max_x >= other.max_x { self.max_x } else { other.max_x },
            max_y: if self.max_y >= other.max_y { self.max_y } else { other.max_y },
        }
    }
}

/// A rectangle that overlaps `a` also overlaps anything containing `a`: an
/// `Expose` for a rectangle covering a removed overlay reaches every region
/// the overlay itself touched.
pub proof fn lemma_overlap_monotonic(a: Rectangle, b: Rectangle, c: Rectangle)
    requires
        a.spec_contains(c),
        b.spec_overlaps(a),
    ensures
        b.spec_overlaps(c),
{
}

} // verus!
