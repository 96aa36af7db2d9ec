use vstd::prelude::*;

verus! {

/// A cell position on the text screen: `x` is the column, `y` the row.
#[derive(Debug, Clone, Copy, PartialEq, Eq, Structural)]
pub struct Point {
    pub x: usize,
    pub y: usize,
}

impl Point {
    pub fn new(x: usize, y: usize) -> (p: Point)
        ensures
            p == (Point { x, y }),
    {
        Point { x, y }
    }
}

impl Default for Point {
    /// The origin, upper left corner of the screen.
    fn default() -> (p: Point)
        ensures
            p == (Point { x: 0usize, y: 0usize }),
    {
        Point { x: 0, y: 0 }
    }
}

} // verus!
