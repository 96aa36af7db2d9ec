//! The text frame buffer, modeled as a grid of cells: a map from `(column,
//! row)` to the character shown there and its color attribute. The kernel's
//! adapter-backed buffer and the in-memory buffer used by tests both
//! implement the one trait; everything drawn on screen goes through it.

use vstd::prelude::*;

use crate::geometry::position::Point;
use crate::geometry::size::{lemma_row_major_bound, Size};
use crate::vga_video::color::CharacterColor;

verus! {

/// One text cell: the character shown and its color attribute.
pub type ScreenCell = (char, CharacterColor);

/// The cell a cleared position shows: no character, all-zero attribute.
pub open spec fn blank_cell() -> ScreenCell {
    ('\0', CharacterColor::spec_zero())
}

/// Whether `p` lies within a buffer of extent `size`.
pub open spec fn point_in(size: Size, p: Point) -> bool {
    p.x < size.width && p.y < size.height
}

/// Whether the grid has a cell for every in-bounds position.
pub open spec fn grid_covers(cells: Map<(int, int), ScreenCell>, size: Size) -> bool {
    forall|x: int, y: int|
        0 <= x < size.width && 0 <= y < size.height ==> cells.dom().contains((x, y))
}

/// The grid after clearing: every in-bounds cell blank, everything else
/// kept.
pub open spec fn cleared_cells(cells: Map<(int, int), ScreenCell>, size: Size) -> Map<
    (int, int),
    ScreenCell,
> {
    Map::new(
        |p: (int, int)|
            cells.dom().contains(p) || (0 <= p.0 < size.width && 0 <= p.1 < size.height),
        |p: (int, int)|
            if 0 <= p.0 < size.width && 0 <= p.1 < size.height {
                blank_cell()
            } else {
                cells[p]
            },
    )
}

/// A text frame buffer of fixed extent.
pub trait FrameBuffer: Sized {
    /// The buffer's extent.
    spec fn size(&self) -> Size;

    /// The cell at each in-bounds position.
    spec fn cells(&self) -> Map<(int, int), ScreenCell>;

    fn get_size(&self) -> (s: Size)
        ensures
            s == self.size(),
            s.width * s.height <= usize::MAX,
            grid_covers(self.cells(), self.size()),
    ;

    /// Draws one character at an in-bounds position.
    fn set_char(&mut self, position: Point, character: char, color: CharacterColor)
        requires
            point_in(old(self).size(), position),
        ensures
            final(self).size() == old(self).size(),
            final(self).cells() == old(self).cells().insert(
                (position.x as int, position.y as int),
                (character, color),
            ),
    ;

    /// Copies the cell at `source` onto `destination`.
    fn copy_char(&mut self, source: Point, destination: Point)
        requires
            point_in(old(self).size(), source),
            point_in(old(self).size(), destination),
        ensures
            final(self).size() == old(self).size(),
            final(self).cells() == old(self).cells().insert(
                (destination.x as int, destination.y as int),
                old(self).cells()[(source.x as int, source.y as int)],
            ),
    ;

    /// Blanks every cell.
    fn clear(&mut self)
        ensures
            final(self).size() == old(self).size(),
            final(self).cells() == cleared_cells(old(self).cells(), old(self).size()),
    {
        let size = self.get_size();
        let ghost orig = self.cells();
        let mut y: usize = 0;
        while y < size.height
            invariant
                y <= size.height,
                self.size() == size,
                size.width * size.height <= usize::MAX,
                forall|p: (int, int)|
                    #![trigger self.cells().dom().contains(p)]
                    #![trigger self.cells()[p]]
                    {
                        &&& (self.cells().dom().contains(p) <==> (orig.dom().contains(p) || (0
                            <= p.0 < size.width && 0 <= p.1 < y)))
                        &&& (self.cells().dom().contains(p) ==> self.cells()[p] == (if 0 <= p.0
                            < size.width && 0 <= p.1 < y {
                            blank_cell()
                        } else {
                            orig[p]
                        }))
                    },
            decreases size.height - y,
        {
            let mut x: usize = 0;
            while x < size.width
                invariant
                    x <= size.width,
                    y < size.height,
                    self.size() == size,
                    size.width * size.height <= usize::MAX,
                    forall|p: (int, int)|
                        #![trigger self.cells().dom().contains(p)]
                        #![trigger self.cells()[p]]
                        {
                            &&& (self.cells().dom().contains(p) <==> (orig.dom().contains(p) || (0
                                <= p.0 < size.width && 0 <= p.1 < y) || (0 <= p.0 < x && p.1 == y)))
                            &&& (self.cells().dom().contains(p) ==> self.cells()[p] == (if (0 <= p.0
                                < size.width && 0 <= p.1 < y) || (0 <= p.0 < x && p.1 == y) {
                                blank_cell()
                            } else {
                                orig[p]
                            }))
                        },
                decreases size.width - x,
            {
                self.set_char(Point { x, y }, '\0', CharacterColor::zero());
                x = x + 1;
            }
            y = y + 1;
        }
        proof {
            assert(self.cells() =~= cleared_cells(orig, size));
        }
    }

    /// The row-major index of an in-bounds position, as implementations lay
    /// cells out in memory.
    fn get_index(&self, position: Point) -> (idx: usize)
        requires
            point_in(self.size(), position),
        ensures
            idx == position.y * self.size().width + position.x,
    {
        let size = self.get_size();
        proof {
            lemma_row_major_bound(
                position.x as int,
                position.y as int,
                size.width as int,
                size.height as int,
            );
        }
        position.y * size.width + position.x
    }
}

} // verus!
