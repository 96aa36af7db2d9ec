use vstd::prelude::*;

use vstd::arithmetic::div_mod::lemma_fundamental_div_mod_converse;
use vstd::arithmetic::mul::{
    lemma_mul_inequality, lemma_mul_is_commutative, lemma_mul_is_distributive_add_other_way,
};

use crate::geometry::position::Point;

verus! {

/// The extent of a rectangular region of the screen, in cells.
#[derive(Debug, Clone, Copy, PartialEq, Eq, Structural)]
pub struct Size {
    pub width: usize,
    pub height: usize,
}

/// With `y < h` and `x < w`, the row-major index `y * w + x` stays below
/// `w * h`, and the indexes of one row stay below those of the next.
pub proof fn lemma_row_major_bound(x: int, y: int, w: int, h: int)
    requires
        0 <= x < w,
        0 <= y < h,
    ensures
        y * w + x < w * h,
        (y + 1) * w == y * w + w,
{
    lemma_mul_is_distributive_add_other_way(w, y, 1);
    lemma_mul_inequality(y + 1, h, w);
    lemma_mul_is_commutative(h, w);
}

impl Size {
    pub fn new(width: usize, height: usize) -> (s: Size)
        ensures
            s == (Size { width, height }),
    {
        Size { width, height }
    }

    /// The number of cells a region of this size covers.
    pub fn area(&self) -> (a: usize)
        requires
            self.width * self.height <= usize::MAX,
        ensures
            a == self.width * self.height,
    {
        self.width * self.height
    }

    /// The point at row-major index `i` of a region of this size.
    pub open spec fn point_at(&self, i: int) -> Point {
        Point { x: (i % (self.width as int)) as usize, y: (i / (self.width as int)) as usize }
    }

    /// All points of a region of this size, in row-major order.
    pub fn points(&self) -> (pts: Vec<Point>)
        requires
            self.width * self.height <= usize::MAX,
        ensures
            pts@.len() == self.width * self.height,
            forall|i: int| 0 <= i < pts@.len() ==> pts@[i] == self.point_at(i),
    {
        let mut pts: Vec<Point> = Vec::new();
        let mut y: usize = 0;
        while y < self.height
            invariant
                y <= self.height,
                self.width * self.height <= usize::MAX,
                pts@.len() == y * self.width,
                forall|i: int| 0 <= i < pts@.len() ==> pts@[i] == self.point_at(i),
            decreases self.height - y,
        {
            let mut x: usize = 0;
            while x < self.width
                invariant
                    x <= self.width,
                    y < self.height,
                    self.width * self.height <= usize::MAX,
                    pts@.len() == y * self.width + x,
                    forall|i: int| 0 <= i < pts@.len() ==> pts@[i] == self.point_at(i),
                decreases self.width - x,
            {
                proof {
                    lemma_row_major_bound(x as int, y as int, self.width as int, self.height as int);
                    lemma_fundamental_div_mod_converse(
                        (y * self.width + x) as int,
                        self.width as int,
                        y as int,
                        x as int,
                    );
                }
                pts.push(Point { x, y });
                x = x + 1;
            }
            proof {
                lemma_mul_is_distributive_add_other_way(self.width as int, y as int, 1);
            }
            y = y + 1;
        }
        proof {
            lemma_mul_is_commutative(self.height as int, self.width as int);
        }
        pts
    }
}

/// Steps through the points of a [`Size`] in row-major order, one call to
/// [`SizePointsIterator::next`] per point.
pub struct SizePointsIterator {
    size: Size,
    next_x: usize,
    next_y: usize,
}

impl SizePointsIterator {
    /// The row-major index of the next point to be produced.
    pub closed spec fn index(&self) -> int {
        self.next_y * self.size.width + self.next_x
    }

    pub closed spec fn spec_size(&self) -> Size {
        self.size
    }

    pub closed spec fn wf(&self) -> bool {
        &&& self.size.width >= 1
        &&& self.size.width * self.size.height <= usize::MAX
        &&& self.next_x <= self.size.width
        &&& (self.next_y < self.size.height || (self.next_y == self.size.height && self.next_x
            == 0))
    }

    pub fn new(size: Size) -> (it: SizePointsIterator)
        requires
            size.width >= 1,
            size.width * size.height <= usize::MAX,
        ensures
            it.wf(),
            it.spec_size() == size,
            it.index() == 0,
    {
        SizePointsIterator { size, next_x: 0, next_y: 0 }
    }

    /// Produces the next point, or `None` once every point of the region has
    /// been produced.
    pub fn next(&mut self) -> (p: Option<Point>)
        requires
            old(self).wf(),
        ensures
            final(self).wf(),
            final(self).spec_size() == old(self).spec_size(),
            old(self).index() < old(self).spec_size().width * old(self).spec_size().height ==> {
                &&& p == Some(old(self).spec_size().point_at(old(self).index()))
                &&& final(self).index() == old(self).index() + 1
            },
            old(self).index() >= old(self).spec_size().width * old(self).spec_size().height ==> {
                &&& p is None
                &&& final(self).index() == old(self).index()
            },
    {
        let w = self.size.width;
        let h = self.size.height;
        if self.next_x >= w {
            proof {
                lemma_mul_is_distributive_add_other_way(w as int, self.next_y as int, 1);
            }
            self.next_x = 0;
            self.next_y = self.next_y + 1;
        }
        if self.next_y >= h {
            proof {
                lemma_mul_inequality(h as int, self.next_y as int, w as int);
                lemma_mul_is_commutative(self.next_y as int, w as int);
                lemma_mul_is_commutative(h as int, w as int);
            }
            return None;
        }
        let point = Point { x: self.next_x, y: self.next_y };
        proof {
            lemma_row_major_bound(self.next_x as int, self.next_y as int, w as int, h as int);
            lemma_fundamental_div_mod_converse(
                self.index(),
                w as int,
                self.next_y as int,
                self.next_x as int,
            );
        }
        self.next_x = self.next_x + 1;
        Some(point)
    }
}

} // verus!
