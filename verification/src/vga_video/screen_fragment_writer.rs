//! A writer that renders text into one rectangular fragment of a frame
//! buffer, wrapping at the fragment's right edge and scrolling the fragment
//! one row up when the text runs past its bottom edge.
//!
//! The whole behavior is a pure function of the writer's cursor and the grid:
//! [`write_char_step`] says what one character does, [`write_str_steps`]
//! folds it over a string, and [`ScreenFragmentWriter::write_str`] is proved
//! to realize exactly that.

use vstd::prelude::*;

use vstd::string::StrSliceExecFns;

use crate::geometry::position::Point;
use crate::geometry::rect::Rect;
use crate::geometry::size::Size;
use crate::vga_video::color::CharacterColor;
use crate::vga_video::frame_buffer::{blank_cell, grid_covers, FrameBuffer, ScreenCell};

verus! {

/// Whether the fragment `rect` lies fully within a buffer of extent `size`.
pub open spec fn rect_in(rect: Rect, size: Size) -> bool {
    &&& rect.wf()
    &&& rect.spec_max_x() < size.width
    &&& rect.spec_max_y() < size.height
}

/// The grid after the fragment scrolls one row up: inside the fragment each
/// cell takes the value of the cell one row below, the last row blanks, and
/// everything outside the fragment keeps its value.
pub open spec fn scrolled(cells: Map<(int, int), ScreenCell>, rect: Rect) -> Map<
    (int, int),
    ScreenCell,
> {
    Map::new(
        |p: (int, int)| cells.dom().contains(p),
        |p: (int, int)|
            if rect.spec_min_x() <= p.0 <= rect.spec_max_x() && rect.spec_min_y() <= p.1
                <= rect.spec_max_y() {
                if p.1 < rect.spec_max_y() {
                    cells[(p.0, p.1 + 1)]
                } else {
                    blank_cell()
                }
            } else {
                cells[p]
            },
    )
}

/// Writes text into one rectangular fragment of a frame buffer. The cursor
/// (`next_position`) walks the fragment left to right, top to bottom; row
/// `max_y + 1` means the next character scrolls the fragment first.
pub struct ScreenFragmentWriter {
    pub rect: Rect,
    pub default_color: CharacterColor,
    pub next_position: Point,
}

/// One step of the writer: scroll if the cursor has run past the bottom
/// edge; then a newline moves the cursor to the start of the next row, and
/// any other character lands at the cursor, which advances and wraps at the
/// right edge.
pub open spec fn write_char_step(
    w: ScreenFragmentWriter,
    cells: Map<(int, int), ScreenCell>,
    c: char,
) -> (ScreenFragmentWriter, Map<(int, int), ScreenCell>) {
    let rect = w.rect;
    let (at, cells1) = if w.next_position.y > rect.spec_max_y() {
        (Point { x: w.next_position.x, y: (w.next_position.y - 1) as usize }, scrolled(cells, rect))
    } else {
        (w.next_position, cells)
    };
    if c == '\n' {
        (
            ScreenFragmentWriter {
                next_position: Point { x: rect.origin.x, y: (at.y + 1) as usize },
                ..w
            },
            cells1,
        )
    } else {
        let cells2 = cells1.insert((at.x as int, at.y as int), (c, w.default_color));
        let next = if at.x + 1 > rect.spec_max_x() {
            Point { x: rect.origin.x, y: (at.y + 1) as usize }
        } else {
            Point { x: (at.x + 1) as usize, y: at.y }
        };
        (ScreenFragmentWriter { next_position: next, ..w }, cells2)
    }
}

/// [`write_char_step`], folded over a string.
pub open spec fn write_str_steps(
    w: ScreenFragmentWriter,
    cells: Map<(int, int), ScreenCell>,
    s: Seq<char>,
) -> (ScreenFragmentWriter, Map<(int, int), ScreenCell>)
    decreases s.len(),
{
    if s.len() == 0 {
        (w, cells)
    } else {
        let (w1, cells1) = write_char_step(w, cells, s[0]);
        write_str_steps(w1, cells1, s.drop_first())
    }
}

/// Folding over one more character steps once more at the end.
pub proof fn lemma_steps_snoc(
    w: ScreenFragmentWriter,
    cells: Map<(int, int), ScreenCell>,
    s: Seq<char>,
    c: char,
)
    ensures
        write_str_steps(w, cells, s.push(c)) == {
            let (w1, cells1) = write_str_steps(w, cells, s);
            write_char_step(w1, cells1, c)
        },
    decreases s.len(),
{
    reveal_with_fuel(write_str_steps, 3);
    if s.len() == 0 {
        assert(s.push(c)[0] == c);
        assert(s.push(c).drop_first() =~= s);
    } else {
        assert(s.push(c)[0] == s[0]);
        assert(s.push(c).drop_first() =~= s.drop_first().push(c));
        let (w1, cells1) = write_char_step(w, cells, s[0]);
        lemma_steps_snoc(w1, cells1, s.drop_first(), c);
    }
}

impl ScreenFragmentWriter {
    /// The cursor stays inside the fragment's columns and at most one row
    /// below its last row.
    pub open spec fn wf(&self) -> bool {
        &&& self.rect.wf()
        &&& self.rect.spec_min_x() <= self.next_position.x <= self.rect.spec_max_x()
        &&& self.rect.spec_min_y() <= self.next_position.y <= self.rect.spec_max_y() + 1
    }

    /// A writer for the fragment `rect`, with its cursor at the upper left
    /// corner.
    pub fn new(rect: Rect, default_color: CharacterColor) -> (w: ScreenFragmentWriter)
        requires
            rect.wf(),
        ensures
            w == (ScreenFragmentWriter {
                rect,
                default_color,
                next_position: Point { x: rect.origin.x, y: rect.origin.y },
            }),
            w.wf(),
    {
        let next_position = rect.corner_upper_left();
        ScreenFragmentWriter { rect, default_color, next_position }
    }

    /// Whether the next character must scroll the fragment first.
    pub fn needs_scroll(&self) -> (r: bool)
        requires
            self.rect.wf(),
        ensures
            r == (self.next_position.y > self.rect.spec_max_y()),
    {
        self.next_position.y > self.rect.max_y()
    }

    /// Moves the cursor to the start of the next row.
    pub fn move_to_next_line(&mut self)
        requires
            old(self).rect.wf(),
            old(self).next_position.y <= old(self).rect.spec_max_y(),
        ensures
            *final(self) == (ScreenFragmentWriter {
                next_position: Point {
                    x: old(self).rect.origin.x,
                    y: (old(self).next_position.y + 1) as usize,
                },
                ..*old(self)
            }),
    {
        self.next_position.x = self.rect.min_x();
        self.next_position.y = self.next_position.y + 1;
    }

    /// Advances the cursor one column, wrapping to the next row at the
    /// fragment's right edge.
    pub fn move_to_next_position(&mut self)
        requires
            old(self).wf(),
            old(self).next_position.y <= old(self).rect.spec_max_y(),
        ensures
            *final(self) == (ScreenFragmentWriter {
                next_position: if old(self).next_position.x + 1 > old(self).rect.spec_max_x() {
                    Point {
                        x: old(self).rect.origin.x,
                        y: (old(self).next_position.y + 1) as usize,
                    }
                } else {
                    Point {
                        x: (old(self).next_position.x + 1) as usize,
                        y: old(self).next_position.y,
                    }
                },
                ..*old(self)
            }),
            final(self).wf(),
    {
        self.next_position.x = self.next_position.x + 1;
        if !self.rect.contains(self.next_position) {
            self.move_to_next_line();
        }
    }

    /// Scrolls the fragment one row up: every row moves onto the one above
    /// it, the last row blanks, and the cursor moves up one row with them.
    pub fn scroll_up<F: FrameBuffer>(&mut self, frame_buffer: &mut F)
        requires
            old(self).wf(),
            old(self).next_position.y > old(self).rect.spec_max_y(),
            rect_in(old(self).rect, old(frame_buffer).size()),
            grid_covers(old(frame_buffer).cells(), old(frame_buffer).size()),
        ensures
            grid_covers(final(frame_buffer).cells(), final(frame_buffer).size()),
            *final(self) == (ScreenFragmentWriter {
                next_position: Point {
                    x: old(self).next_position.x,
                    y: (old(self).next_position.y - 1) as usize,
                },
                ..*old(self)
            }),
            final(self).wf(),
            final(frame_buffer).size() == old(frame_buffer).size(),
            final(frame_buffer).cells() == scrolled(old(frame_buffer).cells(), old(self).rect),
    {
        let ghost orig = frame_buffer.cells();
        let ghost rect = self.rect;
        let ghost size = frame_buffer.size();
        let min_x = self.rect.min_x();
        let max_x = self.rect.max_x();
        let min_y = self.rect.min_y();
        let max_y = self.rect.max_y();

        let mut row = min_y + 1;
        while row <= max_y
            invariant
                min_y + 1 <= row <= max_y + 1,
                min_x == rect.spec_min_x(),
                max_x == rect.spec_max_x(),
                min_y == rect.spec_min_y(),
                max_y == rect.spec_max_y(),
                rect_in(rect, size),
                grid_covers(orig, size),
                frame_buffer.size() == size,
                frame_buffer.cells().dom() == orig.dom(),
                forall|p: (int, int)|
                    #![trigger frame_buffer.cells()[p]]
                    orig.dom().contains(p) ==> frame_buffer.cells()[p] == (if min_x <= p.0 <= max_x
                        && min_y <= p.1 < row - 1 {
                        orig[(p.0, p.1 + 1)]
                    } else {
                        orig[p]
                    }),
            decreases max_y + 1 - row,
        {
            let mut column = min_x;
            while column <= max_x
                invariant
                    min_x <= column <= max_x + 1,
                    min_y + 1 <= row <= max_y,
                    min_x == rect.spec_min_x(),
                    max_x == rect.spec_max_x(),
                    min_y == rect.spec_min_y(),
                    max_y == rect.spec_max_y(),
                    rect_in(rect, size),
                    grid_covers(orig, size),
                    frame_buffer.size() == size,
                    frame_buffer.cells().dom() == orig.dom(),
                    forall|p: (int, int)|
                        #![trigger frame_buffer.cells()[p]]
                        orig.dom().contains(p) ==> frame_buffer.cells()[p] == (if min_x <= p.0
                            <= max_x && min_y <= p.1 < row - 1 {
                            orig[(p.0, p.1 + 1)]
                        } else if min_x <= p.0 < column && p.1 == row - 1 {
                            orig[(p.0, p.1 + 1)]
                        } else {
                            orig[p]
                        }),
                decreases max_x + 1 - column,
            {
                frame_buffer.copy_char(
                    Point { x: column, y: row },
                    Point { x: column, y: row - 1 },
                );
                column = column + 1;
            }
            row = row + 1;
        }

        let mut column = min_x;
        while column <= max_x
            invariant
                min_x <= column <= max_x + 1,
                min_x == rect.spec_min_x(),
                max_x == rect.spec_max_x(),
                min_y == rect.spec_min_y(),
                max_y == rect.spec_max_y(),
                rect_in(rect, size),
                grid_covers(orig, size),
                frame_buffer.size() == size,
                frame_buffer.cells().dom() == orig.dom(),
                forall|p: (int, int)|
                    #![trigger frame_buffer.cells()[p]]
                    orig.dom().contains(p) ==> frame_buffer.cells()[p] == (if min_x <= p.0 <= max_x
                        && min_y <= p.1 < max_y {
                        orig[(p.0, p.1 + 1)]
                    } else if min_x <= p.0 < column && p.1 == max_y {
                        blank_cell()
                    } else {
                        orig[p]
                    }),
            decreases max_x + 1 - column,
        {
            frame_buffer.set_char(Point { x: column, y: max_y }, '\0', CharacterColor::zero());
            column = column + 1;
        }

        self.next_position.y = self.next_position.y - 1;
        proof {
            assert(frame_buffer.cells() =~= scrolled(orig, rect));
        }
    }

    /// Writes one character, per [`write_char_step`].
    pub fn write_char<F: FrameBuffer>(&mut self, c: char, frame_buffer: &mut F)
        requires
            old(self).wf(),
            rect_in(old(self).rect, old(frame_buffer).size()),
            grid_covers(old(frame_buffer).cells(), old(frame_buffer).size()),
        ensures
            final(self).wf(),
            final(self).rect == old(self).rect,
            final(self).default_color == old(self).default_color,
            final(frame_buffer).size() == old(frame_buffer).size(),
            grid_covers(final(frame_buffer).cells(), final(frame_buffer).size()),
            (*final(self), final(frame_buffer).cells()) == write_char_step(
                *old(self),
                old(frame_buffer).cells(),
                c,
            ),
    {
        if self.needs_scroll() {
            self.scroll_up(frame_buffer);
        }
        if c == '\n' {
            self.move_to_next_line();
        } else {
            frame_buffer.set_char(self.next_position, c, self.default_color);
            self.move_to_next_position();
        }
    }

    /// Writes a string character by character, per [`write_str_steps`].
    pub fn write_str<F: FrameBuffer>(&mut self, string: &str, frame_buffer: &mut F)
        requires
            old(self).wf(),
            rect_in(old(self).rect, old(frame_buffer).size()),
            grid_covers(old(frame_buffer).cells(), old(frame_buffer).size()),
        ensures
            final(self).wf(),
            final(self).rect == old(self).rect,
            final(self).default_color == old(self).default_color,
            final(frame_buffer).size() == old(frame_buffer).size(),
            grid_covers(final(frame_buffer).cells(), final(frame_buffer).size()),
            (*final(self), final(frame_buffer).cells()) == write_str_steps(
                *old(self),
                old(frame_buffer).cells(),
                string@,
            ),
    {
        let ghost orig_writer = *self;
        let ghost orig_cells = frame_buffer.cells();
        let ghost size = frame_buffer.size();
        let len = string.unicode_len();
        let mut i: usize = 0;
        while i < len
            invariant
                i <= len,
                len == string@.len(),
                self.wf(),
                self.rect == orig_writer.rect,
                self.default_color == orig_writer.default_color,
                rect_in(self.rect, size),
                frame_buffer.size() == size,
                grid_covers(frame_buffer.cells(), size),
                (*self, frame_buffer.cells()) == write_str_steps(
                    orig_writer,
                    orig_cells,
                    string@.take(i as int),
                ),
            decreases len - i,
        {
            let c = string.get_char(i);
            proof {
                lemma_steps_snoc(orig_writer, orig_cells, string@.take(i as int), c);
                assert(string@.take(i as int).push(c) =~= string@.take(i + 1));
            }
            self.write_char(c, frame_buffer);
            i = i + 1;
        }
        proof {
            assert(string@.take(len as int) =~= string@);
        }
    }

    /// Where the next character will land.
    pub fn get_next_position(&self) -> (p: Point)
        ensures
            p == self.next_position,
    {
        self.next_position
    }

    /// Moves the cursor back to the fragment's upper left corner.
    pub fn reset_position(&mut self)
        requires
            old(self).rect.wf(),
        ensures
            *final(self) == (ScreenFragmentWriter {
                next_position: Point { x: old(self).rect.origin.x, y: old(self).rect.origin.y },
                ..*old(self)
            }),
            final(self).wf(),
    {
        self.next_position = self.rect.corner_upper_left();
    }

    /// The fragment's extent.
    pub fn get_size(&self) -> (s: Size)
        ensures
            s == self.rect.size,
    {
        self.rect.size
    }
}

} // verus!
