//! The screen the kernel paints when it halts on a panic: everything is
//! cleared and the diagnostic is written over the whole buffer in red.

use vstd::prelude::*;

use crate::geometry::position::Point;
use crate::geometry::rect::Rect;
use crate::geometry::size::Size;
use crate::vga_video::color::{CharacterColor, Color};
use crate::vga_video::frame_buffer::{cleared_cells, grid_covers, FrameBuffer};
use crate::vga_video::screen_fragment_writer::{write_str_steps, ScreenFragmentWriter};

verus! {

pub struct PanicScreen {}

impl PanicScreen {
    pub fn new() -> (p: PanicScreen)
        ensures
            p == (PanicScreen {  }),
    {
        PanicScreen {}
    }

    /// Clears the whole buffer and writes the panic banner and the
    /// diagnostic over it in red. The embedding kernel formats the panic
    /// report into `message` before calling (with interrupts already
    /// disabled); it never returns from the surrounding halt.
    pub fn display<F: FrameBuffer>(&self, frame_buffer: &mut F, message: &str)
        requires
            old(frame_buffer).size().width >= 1,
            old(frame_buffer).size().height >= 1,
        ensures
            final(frame_buffer).size() == old(frame_buffer).size(),
            ({
                let size = old(frame_buffer).size();
                let writer = ScreenFragmentWriter {
                    rect: Rect { origin: Point { x: 0usize, y: 0usize }, size },
                    default_color: CharacterColor::spec_new(Color::Red, Color::Black),
                    next_position: Point { x: 0usize, y: 0usize },
                };
                let cleared = cleared_cells(old(frame_buffer).cells(), size);
                let (w1, cells1) = write_str_steps(writer, cleared, "[PANIC!]\n"@);
                let (w2, cells2) = write_str_steps(w1, cells1, message@);
                final(frame_buffer).cells() == cells2
            }),
    {
        let size = frame_buffer.get_size();
        frame_buffer.clear();

        let mut writer = ScreenFragmentWriter::new(
            Rect::new(Point::new(0, 0), size),
            CharacterColor::new(Color::Red, Color::Black),
        );
        writer.write_str("[PANIC!]\n", frame_buffer);
        writer.write_str(message, frame_buffer);
    }
}

} // verus!
