//! The boot-time log screen: a two-row header (title, then a rule) above a
//! scrolling log area. It listens to the kernel log and renders each entry
//! as it is recorded; the header rows stay put while the log area scrolls.

use vstd::prelude::*;

use vstd::string::StringExecFns;

use crate::geometry::position::Point;
use crate::geometry::rect::Rect;
use crate::geometry::size::Size;
use crate::log::{Level, Log, LoggerListener};
use crate::vga_video::color::{CharacterColor, Color};
use crate::vga_video::frame_buffer::{cleared_cells, grid_covers, FrameBuffer};
use crate::vga_video::screen_fragment_writer::{
    rect_in, write_char_step, write_str_steps, ScreenFragmentWriter,
};

verus! {

/// What the title row announces: the kernel's name and version.
pub struct Header {
    name: String,
    version: String,
}

impl Header {
    pub closed spec fn spec_name(&self) -> Seq<char> {
        self.name@
    }

    pub closed spec fn spec_version(&self) -> Seq<char> {
        self.version@
    }

    pub fn new(name: String, version: String) -> (h: Header)
        ensures
            h.spec_name() == name@,
            h.spec_version() == version@,
    {
        Header { name, version }
    }
}

/// The title row's text: the kernel's name and version.
pub open spec fn title_text(h: Header) -> Seq<char> {
    h.spec_name() + " (v"@ + h.spec_version() + ")"@
}

/// The name of a severity, as a log entry's tag shows it.
pub open spec fn level_text(level: Level) -> Seq<char> {
    match level {
        Level::DEBUG => "DEBUG"@,
        Level::INFO => "INFO"@,
        Level::WARNING => "WARNING"@,
        Level::ERROR => "ERROR"@,
    }
}

/// The tag written before an entry's message: `[LEVEL] `.
pub open spec fn log_tag(level: Level) -> Seq<char> {
    seq!['['] + level_text(level) + seq![']', ' ']
}

fn level_str(level: Level) -> (r: &'static str)
    ensures
        r@ == level_text(level),
{
    match level {
        Level::DEBUG => {
            proof {
                reveal_strlit("DEBUG");
            }
            "DEBUG"
        },
        Level::INFO => {
            proof {
                reveal_strlit("INFO");
            }
            "INFO"
        },
        Level::WARNING => {
            proof {
                reveal_strlit("WARNING");
            }
            "WARNING"
        },
        Level::ERROR => {
            proof {
                reveal_strlit("ERROR");
            }
            "ERROR"
        },
    }
}

/// The log screen. It owns its frame buffer (the kernel hands it the
/// adapter-backed one at boot, tests an in-memory one) so that it can render
/// from the log listener's callback; the log area is the region below the
/// two header rows, scrolling within itself.
pub struct TextScreen<F: FrameBuffer> {
    frame_buffer: F,
    default_color: CharacterColor,
    header: Header,
    log_writer: ScreenFragmentWriter,
    heard: Ghost<Seq<(Level, Seq<char>)>>,
}

impl<F: FrameBuffer> TextScreen<F> {
    /// The screen's invariant, established at construction and kept by every
    /// method: the log area is well formed, sits below the two header rows
    /// inside the buffer, and the grid has a cell for every position.
    pub closed spec fn wf(&self) -> bool {
        &&& self.log_writer.wf()
        &&& rect_in(self.log_writer.rect, self.frame_buffer.size())
        &&& grid_covers(self.frame_buffer.cells(), self.frame_buffer.size())
        &&& self.log_writer.rect.origin == (Point { x: 0usize, y: 2usize })
    }

    /// The screen's cells, for inspection.
    pub closed spec fn cells(&self) -> Map<(int, int), (char, CharacterColor)> {
        self.frame_buffer.cells()
    }

    pub closed spec fn spec_size(&self) -> Size {
        self.frame_buffer.size()
    }

    pub closed spec fn spec_header(&self) -> Header {
        self.header
    }

    pub closed spec fn spec_default_color(&self) -> CharacterColor {
        self.default_color
    }

    /// Where the next log entry starts, and the area it scrolls in.
    pub closed spec fn spec_log_writer(&self) -> ScreenFragmentWriter {
        self.log_writer
    }

    /// A log screen over `frame_buffer`, its log area starting below the two
    /// header rows.
    pub fn new(frame_buffer: F, default_color: CharacterColor, header: Header) -> (t: TextScreen<
        F,
    >)
        requires
            frame_buffer.size().width >= 1,
            frame_buffer.size().height >= 3,
        ensures
            t.wf(),
            t.heard() == Seq::<(Level, Seq<char>)>::empty(),
            t.cells() == frame_buffer.cells(),
            t.spec_size() == frame_buffer.size(),
            t.spec_header() == header,
            t.spec_default_color() == default_color,
            t.spec_log_writer() == (ScreenFragmentWriter {
                rect: Rect {
                    origin: Point { x: 0usize, y: 2usize },
                    size: Size {
                        width: frame_buffer.size().width,
                        height: (frame_buffer.size().height - 2) as usize,
                    },
                },
                default_color,
                next_position: Point { x: 0usize, y: 2usize },
            }),
    {
        let size = frame_buffer.get_size();
        let log_writer = ScreenFragmentWriter::new(
            Rect::new(Point::new(0, 2), Size::new(size.width, size.height - 2)),
            default_color,
        );
        TextScreen { frame_buffer, default_color, header, log_writer, heard: Ghost(Seq::empty()) }
    }

    /// The screen's buffer, for inspection.
    pub fn buffer(&self) -> (fb: &F)
        ensures
            fb.cells() == self.cells(),
            fb.size() == self.spec_size(),
    {
        &self.frame_buffer
    }

    /// Clears the screen and draws the header: the title row in cyan over
    /// the default background, then the rule above the log area. The log
    /// area starts afresh.
    pub fn display(&mut self)
        requires
            old(self).wf(),
        ensures
            final(self).wf(),
            final(self).heard() == old(self).heard(),
            final(self).spec_size() == old(self).spec_size(),
            final(self).spec_header() == old(self).spec_header(),
            final(self).spec_default_color() == old(self).spec_default_color(),
            ({
                let size = old(self).spec_size();
                let title_writer = ScreenFragmentWriter {
                    rect: Rect {
                        origin: Point { x: 0usize, y: 0usize },
                        size: Size { width: size.width, height: 1usize },
                    },
                    default_color: old(self).spec_default_color().spec_with_foreground(
                        Color::Cyan,
                    ),
                    next_position: Point { x: 0usize, y: 0usize },
                };
                let rule_writer = ScreenFragmentWriter {
                    rect: Rect {
                        origin: Point { x: 0usize, y: 1usize },
                        size: Size { width: size.width, height: 1usize },
                    },
                    default_color: old(self).spec_default_color(),
                    next_position: Point { x: 0usize, y: 1usize },
                };
                let cleared = cleared_cells(old(self).cells(), size);
                let (t1, cells1) = write_str_steps(
                    title_writer,
                    cleared,
                    title_text(old(self).spec_header()),
                );
                let (r1, cells2) = write_str_steps(rule_writer, cells1, "=== [Logs] === "@);
                &&& final(self).cells() == cells2
                &&& final(self).spec_log_writer() == (ScreenFragmentWriter {
                    next_position: Point { x: 0usize, y: 2usize },
                    ..old(self).spec_log_writer()
                })
            }),
    {
        let size = self.frame_buffer.get_size();
        self.frame_buffer.clear();

        let mut title = self.header.name.clone();
        title.append(" (v");
        title.append(self.header.version.as_str());
        title.append(")");
        proof {
            reveal_strlit(" (v");
            reveal_strlit(")");
            assert(title@ == title_text(self.header));
        }

        let mut title_writer = ScreenFragmentWriter::new(
            Rect::new(Point::new(0, 0), Size::new(size.width, 1)),
            self.default_color.with_foreground(Color::Cyan),
        );
        title_writer.write_str(title.as_str(), &mut self.frame_buffer);

        let mut rule_writer = ScreenFragmentWriter::new(
            Rect::new(Point::new(0, 1), Size::new(size.width, 1)),
            self.default_color,
        );
        rule_writer.write_str("=== [Logs] === ", &mut self.frame_buffer);

        self.log_writer.reset_position();
    }

    /// Renders one entry into the log area: its `[LEVEL] ` tag in dark gray,
    /// the message in the default color, and a line break, scrolling the
    /// area when it is full.
    pub fn display_log(&mut self, log: &Log)
        requires
            old(self).wf(),
        ensures
            final(self).wf(),
            final(self).heard() == old(self).heard(),
            final(self).spec_size() == old(self).spec_size(),
            final(self).spec_header() == old(self).spec_header(),
            final(self).spec_default_color() == old(self).spec_default_color(),
            ({
                let tag_writer = ScreenFragmentWriter {
                    default_color: old(self).spec_default_color().spec_with_foreground(
                        Color::DarkGray,
                    ),
                    ..old(self).spec_log_writer()
                };
                let (w1, cells1) = write_str_steps(
                    tag_writer,
                    old(self).cells(),
                    log_tag(log.level),
                );
                let body_writer = ScreenFragmentWriter {
                    default_color: old(self).spec_default_color(),
                    ..w1
                };
                let (w2, cells2) = write_str_steps(body_writer, cells1, log.message@);
                let (w3, cells3) = write_char_step(w2, cells2, '\n');
                &&& final(self).cells() == cells3
                &&& final(self).spec_log_writer() == w3
            }),
    {
        let mut tag = String::from_str("[");
        tag.append(level_str(log.level));
        tag.append("] ");
        proof {
            reveal_strlit("[");
            reveal_strlit("] ");
            assert(tag@ == log_tag(log.level));
        }

        self.log_writer.default_color = self.default_color.with_foreground(Color::DarkGray);
        self.log_writer.write_str(tag.as_str(), &mut self.frame_buffer);
        self.log_writer.default_color = self.default_color;
        self.log_writer.write_str(log.message.as_str(), &mut self.frame_buffer);
        self.log_writer.write_char('\n', &mut self.frame_buffer);
    }
}

impl<F: FrameBuffer> LoggerListener for TextScreen<F> {
    /// The listener's invariant is the screen's own.
    open spec fn inv(&self) -> bool {
        self.wf()
    }

    /// What the screen has been notified of (and rendered), oldest first.
    closed spec fn heard(&self) -> Seq<(Level, Seq<char>)> {
        self.heard@
    }

    fn did_log(&mut self, log: &Log) {
        self.display_log(log);
        self.heard = Ghost(self.heard@.push((log.level, log.message@)));
    }
}

} // verus!
