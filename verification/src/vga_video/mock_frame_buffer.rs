//! An in-memory frame buffer: the cells live in a plain vector, row-major.
//! Tests render into it and read the characters back; it is the reference
//! implementation of [`FrameBuffer`].

use vstd::prelude::*;

use vstd::arithmetic::div_mod::lemma_fundamental_div_mod_converse;

use crate::geometry::position::Point;
use crate::geometry::size::{lemma_row_major_bound, Size};
use crate::vga_video::color::CharacterColor;
use crate::vga_video::frame_buffer::{blank_cell, FrameBuffer, ScreenCell};

verus! {

pub struct MockFrameBuffer {
    characters: Vec<ScreenCell>,
    size: Size,
}

impl MockFrameBuffer {
    #[verifier::type_invariant]
    spec fn type_wf(&self) -> bool {
        &&& self.characters@.len() == self.size.width * self.size.height
        &&& self.size.width * self.size.height <= usize::MAX
    }

    /// An all-blank buffer of the given extent.
    pub fn new(cols: usize, rows: usize) -> (fb: MockFrameBuffer)
        requires
            cols * rows <= usize::MAX,
        ensures
            fb.size() == (Size { width: cols, height: rows }),
            fb.cells() == Map::new(
                |p: (int, int)| 0 <= p.0 < cols && 0 <= p.1 < rows,
                |p: (int, int)| blank_cell(),
            ),
    {
        let size = Size::new(cols, rows);
        let area = size.area();
        let mut characters: Vec<ScreenCell> = Vec::new();
        let mut i: usize = 0;
        while i < area
            invariant
                i <= area,
                characters@.len() == i,
                forall|j: int| 0 <= j < i ==> characters@[j] == blank_cell(),
            decreases area - i,
        {
            characters.push(('\0', CharacterColor::zero()));
            i = i + 1;
        }
        let fb = MockFrameBuffer { characters, size };
        proof {
            assert forall|p: (int, int)| 0 <= p.0 < cols && 0 <= p.1 < rows implies fb.cells()[p]
                == blank_cell() by {
                lemma_row_major_bound(p.0, p.1, cols as int, rows as int);
            }
            assert(fb.cells() =~= Map::new(
                |p: (int, int)| 0 <= p.0 < cols && 0 <= p.1 < rows,
                |p: (int, int)| blank_cell(),
            ));
        }
        fb
    }

    /// `length` characters from the row-major cells starting at `(x, y)`,
    /// the way a test reads a row back.
    pub fn get_chars(&self, x: usize, y: usize, length: usize) -> (r: Vec<char>)
        requires
            x < self.size().width,
            y < self.size().height,
            y * self.size().width + x + length <= self.size().width * self.size().height,
        ensures
            r@.len() == length,
            forall|i: int|
                0 <= i < length ==> r@[i] == {
                    let p = self.size().point_at(y * self.size().width + x + i);
                    self.cells()[(p.x as int, p.y as int)].0
                },
    {
        proof {
            use_type_invariant(self);
            lemma_row_major_bound(x as int, y as int, self.size.width as int, self.size.height as int);
        }
        let base = y * self.size.width + x;
        let mut r: Vec<char> = Vec::new();
        let mut i: usize = 0;
        while i < length
            invariant
                i <= length,
                self.type_wf(),
                x < self.size.width,
                y < self.size.height,
                base == y * self.size.width + x,
                base + length <= self.size.width * self.size.height,
                r@.len() == i,
                forall|j: int|
                    0 <= j < i ==> r@[j] == {
                        let p = self.size.point_at(base + j);
                        self.cells()[(p.x as int, p.y as int)].0
                    },
            decreases length - i,
        {
            let cell = self.characters[base + i];
            proof {
                let k = (base + i) as int;
                let w = self.size.width as int;
                let h = self.size.height as int;
                vstd::arithmetic::div_mod::lemma_fundamental_div_mod(k, w);
                vstd::arithmetic::div_mod::lemma_mod_division_less_than_divisor(k, w);
                vstd::arithmetic::div_mod::lemma_div_pos_is_pos(k, w);
                vstd::arithmetic::mul::lemma_mul_is_commutative(w, h);
                vstd::arithmetic::div_mod::lemma_multiply_divide_lt(k, w, h);
                vstd::arithmetic::mul::lemma_mul_is_commutative(w, k / w);
            }
            r.push(cell.0);
            i = i + 1;
        }
        r
    }
}

impl FrameBuffer for MockFrameBuffer {
    closed spec fn size(&self) -> Size {
        self.size
    }

    closed spec fn cells(&self) -> Map<(int, int), ScreenCell> {
        Map::new(
            |p: (int, int)| 0 <= p.0 < self.size.width && 0 <= p.1 < self.size.height,
            |p: (int, int)| self.characters@[p.1 * self.size.width + p.0],
        )
    }

    fn get_size(&self) -> (s: Size)
        ensures
            s == self.size(),
            s.width * s.height <= usize::MAX,
    {
        proof {
            use_type_invariant(self);
        }
        self.size
    }

    fn set_char(&mut self, position: Point, character: char, color: CharacterColor) {
        proof {
            use_type_invariant(&*self);
            lemma_row_major_bound(
                position.x as int,
                position.y as int,
                self.size.width as int,
                self.size.height as int,
            );
        }
        let index = position.y * self.size.width + position.x;
        let entry = &mut self.characters[index];
        *entry = (character, color);
        proof {
            lemma_insert_at(
                *old(self),
                *self,
                (position.x as int, position.y as int),
                (character, color),
            );
        }
    }

    fn copy_char(&mut self, source: Point, destination: Point) {
        proof {
            use_type_invariant(&*self);
            lemma_row_major_bound(
                source.x as int,
                source.y as int,
                self.size.width as int,
                self.size.height as int,
            );
            lemma_row_major_bound(
                destination.x as int,
                destination.y as int,
                self.size.width as int,
                self.size.height as int,
            );
        }
        let source_index = source.y * self.size.width + source.x;
        let value = self.characters[source_index];
        let destination_index = destination.y * self.size.width + destination.x;
        let entry = &mut self.characters[destination_index];
        *entry = value;
        proof {
            lemma_insert_at(
                *old(self),
                *self,
                (destination.x as int, destination.y as int),
                old(self).cells()[(source.x as int, source.y as int)],
            );
        }
    }
}

/// Updating the vector at the row-major index of an in-bounds point changes
/// the grid exactly at that point: row-major indexing is injective on
/// in-bounds points.
proof fn lemma_insert_at(pre: MockFrameBuffer, post: MockFrameBuffer, key: (int, int), cell: ScreenCell)
    requires
        pre.type_wf(),
        post.size == pre.size,
        0 <= key.0 < pre.size.width,
        0 <= key.1 < pre.size.height,
        post.characters@ == pre.characters@.update(key.1 * pre.size.width + key.0, cell),
    ensures
        post.cells() == pre.cells().insert(key, cell),
{
    let w = pre.size.width as int;
    let h = pre.size.height as int;
    let idx = key.1 * w + key.0;
    lemma_row_major_bound(key.0, key.1, w, h);
    assert forall|p: (int, int)| 0 <= p.0 < w && 0 <= p.1 < h implies post.cells()[p]
        == pre.cells().insert(key, cell)[p] by {
        lemma_row_major_bound(p.0, p.1, w, h);
        if p != key && p.1 * w + p.0 == idx {
            lemma_fundamental_div_mod_converse(idx, w, p.1, p.0);
            lemma_fundamental_div_mod_converse(idx, w, key.1, key.0);
        }
    }
    assert(post.cells() =~= pre.cells().insert(key, cell));
}

} // verus!
