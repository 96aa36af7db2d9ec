use vstd::prelude::*;

use crate::geometry::position::Point;
use crate::geometry::size::Size;

verus! {

/// A rectangular region of the screen: an origin (its upper left corner) and
/// an extent. Every row and column index inside the region stays within
/// `usize`, and the region covers at least one cell.
#[derive(Debug, Clone, Copy, PartialEq, Eq, Structural)]
pub struct Rect {
    pub origin: Point,
    pub size: Size,
}

impl Rect {
    /// A region with at least one cell whose outermost row and column
    /// indexes do not overflow `usize`.
    pub open spec fn wf(&self) -> bool {
        &&& self.size.width >= 1
        &&& self.size.height >= 1
        &&& self.origin.x + self.size.width <= usize::MAX
        &&& self.origin.y + self.size.height <= usize::MAX
    }

    pub open spec fn spec_min_x(&self) -> int {
        self.origin.x as int
    }

    pub open spec fn spec_max_x(&self) -> int {
        self.origin.x + self.size.width - 1
    }

    pub open spec fn spec_min_y(&self) -> int {
        self.origin.y as int
    }

    pub open spec fn spec_max_y(&self) -> int {
        self.origin.y + self.size.height - 1
    }

    /// Whether `point` lies within the region.
    pub open spec fn spec_contains(&self, point: Point) -> bool {
        &&& self.spec_min_x() <= point.x <= self.spec_max_x()
        &&& self.spec_min_y() <= point.y <= self.spec_max_y()
    }

    pub fn new(origin: Point, size: Size) -> (r: Rect)
        ensures
            r == (Rect { origin, size }),
    {
        Rect { origin, size }
    }

    pub fn from(x: usize, y: usize, width: usize, height: usize) -> (r: Rect)
        ensures
            r == (Rect { origin: Point { x, y }, size: Size { width, height } }),
    {
        Rect { origin: Point::new(x, y), size: Size::new(width, height) }
    }
}

impl Rect {
    pub fn min_x(&self) -> (x: usize)
        ensures
            x == self.spec_min_x(),
    {
        self.origin.x
    }

    pub fn max_x(&self) -> (x: usize)
        requires
            self.wf(),
        ensures
            x == self.spec_max_x(),
    {
        self.origin.x + self.size.width - 1
    }

    pub fn min_y(&self) -> (y: usize)
        ensures
            y == self.spec_min_y(),
    {
        self.origin.y
    }

    pub fn max_y(&self) -> (y: usize)
        requires
            self.wf(),
        ensures
            y == self.spec_max_y(),
    {
        self.origin.y + self.size.height - 1
    }

    pub fn contains(&self, point: Point) -> (c: bool)
        requires
            self.wf(),
        ensures
            c == self.spec_contains(point),
    {
        point.x >= self.min_x() && point.x <= self.max_x() && point.y >= self.min_y()
            && point.y <= self.max_y()
    }
}

impl Rect {
    pub fn corner_upper_left(&self) -> (p: Point)
        requires
            self.wf(),
        ensures
            p.x == self.spec_min_x() && p.y == self.spec_min_y(),
    {
        Point::new(self.min_x(), self.min_y())
    }

    pub fn corner_upper_right(&self) -> (p: Point)
        requires
            self.wf(),
        ensures
            p.x == self.spec_max_x() && p.y == self.spec_min_y(),
    {
        Point::new(self.max_x(), self.min_y())
    }

    pub fn corner_lower_left(&self) -> (p: Point)
        requires
            self.wf(),
        ensures
            p.x == self.spec_min_x() && p.y == self.spec_max_y(),
    {
        Point::new(self.min_x(), self.max_y())
    }

    pub fn corner_lower_right(&self) -> (p: Point)
        requires
            self.wf(),
        ensures
            p.x == self.spec_max_x() && p.y == self.spec_max_y(),
    {
        Point::new(self.max_x(), self.max_y())
    }
}

} // verus!
