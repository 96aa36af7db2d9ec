//! The interactive terminal: a one-row header (name, version, clock) above a
//! scrolling body that echoes keystrokes, collects them into a command line,
//! and hands each completed line to the command handler.

use vstd::prelude::*;

use vstd::string::{StringExecFns, StrSliceExecFns};

use crate::command::command::Command;
use crate::command::command_register::CommandHandler;
use crate::geometry::position::Point;
use crate::geometry::rect::Rect;
use crate::geometry::size::Size;
use crate::rtc::{datetime_text, RTCDateTime};
use crate::task::keyboard::KeyInput;
use crate::vga_video::color::CharacterColor;
use crate::vga_video::cursor::{Cursor, CursorStyle};
use crate::vga_video::frame_buffer::{grid_covers, FrameBuffer};
use crate::vga_video::screen_fragment_writer::{
    rect_in, write_char_step, write_str_steps, ScreenFragmentWriter,
};

verus! {

/// Relies on `String::push` of std: appends one character at the end.
#[verifier::external_body]
fn string_push_char(s: &mut String, c: char)
    ensures
        final(s)@ == old(s)@.push(c),
{
    s.push(c)
}

/// What the header row announces: the kernel's name and version.
pub struct Header {
    name: String,
    version: String,
}

impl Header {
    pub closed spec fn spec_name(&self) -> Seq<char> {
        self.name@
    }

    pub closed spec fn spec_version(&self) -> Seq<char> {
        self.version@
    }

    pub fn new(name: String, version: String) -> (h: Header)
        ensures
            h.spec_name() == name@,
            h.spec_version() == version@,
    {
        Header { name, version }
    }
}

/// `n` spaces (none when `n` is negative).
pub open spec fn spaces(n: int) -> Seq<char> {
    Seq::new(
        if n >= 0 {
            n as nat
        } else {
            0
        },
        |i: int| ' ',
    )
}

/// The header row's text: `left`, then `center` centered in the room that
/// `left` and `right` leave free (extra space going to the right), then
/// `right`.
pub open spec fn header_line(
    left: Seq<char>,
    center: Seq<char>,
    right: Seq<char>,
    total: int,
) -> Seq<char> {
    let room = total - left.len() - right.len();
    if center.len() >= room {
        left + center + right
    } else {
        let pre = (room - center.len()) / 2;
        let post = room - center.len() - pre;
        left + spaces(pre) + center + spaces(post) + right
    }
}

/// What the terminal centers in its header: the kernel's name and version.
pub open spec fn header_center(h: Header) -> Seq<char> {
    h.spec_name() + " (ver. "@ + h.spec_version() + ")"@
}

fn append_spaces(s: &mut String, n: usize)
    ensures
        final(s)@ == old(s)@ + spaces(n as int),
{
    let mut i: usize = 0;
    while i < n
        invariant
            i <= n,
            s@ == old(s)@ + spaces(i as int),
        decreases n - i,
    {
        s.append(" ");
        proof {
            reveal_strlit(" ");
            assert(s@ =~= old(s)@ + spaces(i + 1));
        }
        i = i + 1;
    }
    proof {
        assert(old(s)@ + spaces(0) =~= old(s)@);
    }
}

/// The terminal: a header writer pinned to the top row, a body writer for
/// everything below, the pending command line, and the collaborators plugged
/// in at boot (a cursor and a command handler).
pub struct TerminalScreen<C: Cursor, H: CommandHandler> {
    header_writer: ScreenFragmentWriter,
    header: Header,
    body_writer: ScreenFragmentWriter,
    prompt: String,
    cursor: C,
    command_buffer: Vec<char>,
    command_handler: H,
}

impl<C: Cursor, H: CommandHandler> TerminalScreen<C, H> {
    /// The keystrokes collected since the last completed command line.
    pub closed spec fn buffer(&self) -> Seq<char> {
        self.command_buffer@
    }

    pub closed spec fn spec_prompt(&self) -> Seq<char> {
        self.prompt@
    }

    pub closed spec fn spec_header_writer(&self) -> ScreenFragmentWriter {
        self.header_writer
    }

    pub closed spec fn spec_body_writer(&self) -> ScreenFragmentWriter {
        self.body_writer
    }

    pub closed spec fn spec_header(&self) -> Header {
        self.header
    }

    pub closed spec fn spec_handler(&self) -> &H {
        &self.command_handler
    }

    /// The plugged-in command handler, for inspection.
    pub fn handler(&self) -> (h: &H)
        ensures
            h == self.spec_handler(),
    {
        &self.command_handler
    }

    pub open spec fn wf(&self) -> bool {
        &&& self.spec_header_writer().wf()
        &&& self.spec_body_writer().wf()
    }

    /// Whether both writers' fragments lie within a buffer of extent `size`.
    pub open spec fn fits(&self, size: Size) -> bool {
        &&& rect_in(self.spec_header_writer().rect, size)
        &&& rect_in(self.spec_body_writer().rect, size)
    }

    /// A terminal over a buffer of extent `screen_size`: the header takes
    /// the top row, the body the rest.
    pub fn new(
        screen_size: Size,
        header: Header,
        prompt: String,
        cursor: C,
        command_handler: H,
    ) -> (t: TerminalScreen<C, H>)
        requires
            screen_size.width >= 1,
            2 <= screen_size.height,
        ensures
            t.wf(),
            t.fits(screen_size),
            t.buffer() == Seq::<char>::empty(),
            t.spec_prompt() == prompt@,
            t.spec_header() == header,
            t.spec_header_writer().rect == (Rect {
                origin: Point { x: 0usize, y: 0usize },
                size: Size { width: screen_size.width, height: 1usize },
            }),
            t.spec_header_writer().next_position == (Point { x: 0usize, y: 0usize }),
            t.spec_body_writer().rect == (Rect {
                origin: Point { x: 0usize, y: 1usize },
                size: Size {
                    width: screen_size.width,
                    height: (screen_size.height - 1) as usize,
                },
            }),
            t.spec_body_writer().next_position == (Point { x: 0usize, y: 1usize }),
            t.spec_body_writer().default_color == CharacterColor::spec_zero(),
    {
        let header_writer = ScreenFragmentWriter::new(
            Rect::new(Point::new(0, 0), Size::new(screen_size.width, 1)),
            CharacterColor::default(),
        );
        let body_writer = ScreenFragmentWriter::new(
            Rect::new(Point::new(0, 1), Size::new(screen_size.width, screen_size.height - 1)),
            CharacterColor::default(),
        );
        TerminalScreen {
            header_writer,
            header,
            body_writer,
            prompt,
            cursor,
            command_buffer: Vec::new(),
            command_handler,
        }
    }

    /// Redraws the header row: name and version centered, the clock on the
    /// right. The time is read by the embedding kernel and handed in; the
    /// header row must have room for the written-out timestamp (nineteen
    /// characters for a normalized one).
    pub fn refresh_header<F: FrameBuffer>(&mut self, frame_buffer: &mut F, now: &RTCDateTime)
        requires
            old(self).wf(),
            old(self).fits(old(frame_buffer).size()),
            grid_covers(old(frame_buffer).cells(), old(frame_buffer).size()),
            datetime_text(*now).len() <= old(self).spec_header_writer().rect.size.width,
        ensures
            final(self).wf(),
            final(self).fits(final(frame_buffer).size()),
            final(frame_buffer).size() == old(frame_buffer).size(),
            grid_covers(final(frame_buffer).cells(), final(frame_buffer).size()),
            final(self).buffer() == old(self).buffer(),
            final(self).spec_prompt() == old(self).spec_prompt(),
            final(self).spec_header() == old(self).spec_header(),
            final(self).spec_body_writer() == old(self).spec_body_writer(),
            ({
                let start = ScreenFragmentWriter {
                    next_position: Point {
                        x: old(self).spec_header_writer().rect.origin.x,
                        y: old(self).spec_header_writer().rect.origin.y,
                    },
                    ..old(self).spec_header_writer()
                };
                let line = header_line(
                    Seq::<char>::empty(),
                    header_center(old(self).spec_header()),
                    datetime_text(*now),
                    old(self).spec_header_writer().rect.size.width as int,
                );
                (final(self).spec_header_writer(), final(frame_buffer).cells()) == write_str_steps(
                    start,
                    old(frame_buffer).cells(),
                    line,
                )
            }),
    {
        let right = now.text();
        let mut center = self.header.name.clone();
        center.append(" (ver. ");
        center.append(self.header.version.as_str());
        center.append(")");
        proof {
            reveal_strlit(" (ver. ");
            reveal_strlit(")");
            reveal_strlit("");
            assert(center@ == header_center(self.spec_header()));
            assert(""@ =~= Seq::<char>::empty());
        }
        self.display_header("", center.as_str(), right.as_str(), frame_buffer);
    }

    /// Writes one header row: `left`, `center` centered in the remaining
    /// room, `right`.
    fn display_header<F: FrameBuffer>(
        &mut self,
        left: &str,
        center: &str,
        right: &str,
        frame_buffer: &mut F,
    )
        requires
            old(self).wf(),
            old(self).fits(old(frame_buffer).size()),
            grid_covers(old(frame_buffer).cells(), old(frame_buffer).size()),
            left@.len() + right@.len() <= old(self).spec_header_writer().rect.size.width,
        ensures
            final(self).wf(),
            final(self).fits(final(frame_buffer).size()),
            final(frame_buffer).size() == old(frame_buffer).size(),
            grid_covers(final(frame_buffer).cells(), final(frame_buffer).size()),
            final(self).buffer() == old(self).buffer(),
            final(self).spec_prompt() == old(self).spec_prompt(),
            final(self).spec_header() == old(self).spec_header(),
            final(self).spec_body_writer() == old(self).spec_body_writer(),
            ({
                let start = ScreenFragmentWriter {
                    next_position: Point {
                        x: old(self).spec_header_writer().rect.origin.x,
                        y: old(self).spec_header_writer().rect.origin.y,
                    },
                    ..old(self).spec_header_writer()
                };
                let line = header_line(
                    left@,
                    center@,
                    right@,
                    old(self).spec_header_writer().rect.size.width as int,
                );
                (final(self).spec_header_writer(), final(frame_buffer).cells()) == write_str_steps(
                    start,
                    old(frame_buffer).cells(),
                    line,
                )
            }),
    {
        let total = self.header_writer.get_size().width;
        let left_len = left.unicode_len();
        let right_len = right.unicode_len();
        let center_len = center.unicode_len();
        let room = total - left_len - right_len;

        let mut line = left.to_owned();
        if center_len >= room {
            line.append(center);
        } else {
            let pre = (room - center_len) / 2;
            let post = room - center_len - pre;
            append_spaces(&mut line, pre);
            line.append(center);
            append_spaces(&mut line, post);
        }
        line.append(right);
        proof {
            assert(line@ == header_line(left@, center@, right@, total as int));
        }

        self.header_writer.reset_position();
        self.header_writer.write_str(line.as_str(), frame_buffer);
    }

    /// Echoes `string` into the body and moves the cursor after it.
    fn write_body_str<F: FrameBuffer>(&mut self, string: &str, frame_buffer: &mut F)
        requires
            old(self).wf(),
            old(self).fits(old(frame_buffer).size()),
            grid_covers(old(frame_buffer).cells(), old(frame_buffer).size()),
        ensures
            final(self).wf(),
            final(self).fits(final(frame_buffer).size()),
            final(frame_buffer).size() == old(frame_buffer).size(),
            grid_covers(final(frame_buffer).cells(), final(frame_buffer).size()),
            final(self).buffer() == old(self).buffer(),
            final(self).spec_prompt() == old(self).spec_prompt(),
            final(self).spec_header() == old(self).spec_header(),
            final(self).spec_header_writer() == old(self).spec_header_writer(),
            (final(self).spec_body_writer(), final(frame_buffer).cells()) == write_str_steps(
                old(self).spec_body_writer(),
                old(frame_buffer).cells(),
                string@,
            ),
    {
        self.body_writer.write_str(string, frame_buffer);
        let next_position = self.body_writer.get_next_position();
        self.cursor.move_to(next_position);
    }

    /// Echoes one character into the body and moves the cursor after it.
    fn write_body_char<F: FrameBuffer>(&mut self, c: char, frame_buffer: &mut F)
        requires
            old(self).wf(),
            old(self).fits(old(frame_buffer).size()),
            grid_covers(old(frame_buffer).cells(), old(frame_buffer).size()),
        ensures
            final(self).wf(),
            final(self).fits(final(frame_buffer).size()),
            final(frame_buffer).size() == old(frame_buffer).size(),
            grid_covers(final(frame_buffer).cells(), final(frame_buffer).size()),
            final(self).buffer() == old(self).buffer(),
            final(self).spec_prompt() == old(self).spec_prompt(),
            final(self).spec_header() == old(self).spec_header(),
            final(self).spec_header_writer() == old(self).spec_header_writer(),
            (final(self).spec_body_writer(), final(frame_buffer).cells()) == write_char_step(
                old(self).spec_body_writer(),
                old(frame_buffer).cells(),
                c,
            ),
    {
        self.body_writer.write_char(c, frame_buffer);
        let next_position = self.body_writer.get_next_position();
        self.cursor.move_to(next_position);
    }

    /// Draws the prompt at the body's cursor.
    pub fn display_prompt<F: FrameBuffer>(&mut self, frame_buffer: &mut F)
        requires
            old(self).wf(),
            old(self).fits(old(frame_buffer).size()),
            grid_covers(old(frame_buffer).cells(), old(frame_buffer).size()),
        ensures
            final(self).wf(),
            final(self).fits(final(frame_buffer).size()),
            final(frame_buffer).size() == old(frame_buffer).size(),
            grid_covers(final(frame_buffer).cells(), final(frame_buffer).size()),
            final(self).buffer() == old(self).buffer(),
            final(self).spec_prompt() == old(self).spec_prompt(),
            final(self).spec_header() == old(self).spec_header(),
            final(self).spec_header_writer() == old(self).spec_header_writer(),
            (final(self).spec_body_writer(), final(frame_buffer).cells()) == write_str_steps(
                old(self).spec_body_writer(),
                old(frame_buffer).cells(),
                old(self).spec_prompt(),
            ),
    {
        let prompt = self.prompt.clone();
        self.write_body_str(prompt.as_str(), frame_buffer);
    }

    /// Turns the collected line into a command and performs it.
    fn process_command_text(&mut self)
        ensures
            final(self).buffer() == old(self).buffer(),
            final(self).spec_prompt() == old(self).spec_prompt(),
            final(self).spec_header() == old(self).spec_header(),
            final(self).spec_header_writer() == old(self).spec_header_writer(),
            final(self).spec_body_writer() == old(self).spec_body_writer(),
    {
        let mut text = String::new();
        let mut i: usize = 0;
        while i < self.command_buffer.len()
            invariant
                i <= self.command_buffer@.len(),
            decreases self.command_buffer@.len() - i,
        {
            string_push_char(&mut text, self.command_buffer[i]);
            i = i + 1;
        }
        if let Some(command) = Command::parse(text) {
            self.command_handler.perform(command);
        }
    }

    /// Takes one decoded keypress: a backspace drops the last collected
    /// character (echoing the backspace only if there was one), a newline
    /// completes the line — it is parsed, performed, forgotten, and a fresh
    /// prompt drawn — and any other character is echoed and collected. Raw
    /// keys produce no character and change nothing here.
    pub fn handle_keypress<F: FrameBuffer>(&mut self, key: KeyInput, frame_buffer: &mut F)
        requires
            old(self).wf(),
            old(self).fits(old(frame_buffer).size()),
            grid_covers(old(frame_buffer).cells(), old(frame_buffer).size()),
        ensures
            final(self).wf(),
            final(self).fits(final(frame_buffer).size()),
            final(frame_buffer).size() == old(frame_buffer).size(),
            grid_covers(final(frame_buffer).cells(), final(frame_buffer).size()),
            final(self).spec_prompt() == old(self).spec_prompt(),
            final(self).spec_header() == old(self).spec_header(),
            final(self).spec_header_writer() == old(self).spec_header_writer(),
            key matches KeyInput::RawKey(_) ==> {
                &&& final(self).buffer() == old(self).buffer()
                &&& final(self).spec_body_writer() == old(self).spec_body_writer()
                &&& final(frame_buffer).cells() == old(frame_buffer).cells()
            },
            key == KeyInput::Unicode('\x08') ==> if old(self).buffer().len() > 0 {
                &&& final(self).buffer() == old(self).buffer().drop_last()
                &&& (final(self).spec_body_writer(), final(frame_buffer).cells())
                    == write_char_step(
                    old(self).spec_body_writer(),
                    old(frame_buffer).cells(),
                    '\x08',
                )
            } else {
                &&& final(self).buffer() == old(self).buffer()
                &&& final(self).spec_body_writer() == old(self).spec_body_writer()
                &&& final(frame_buffer).cells() == old(frame_buffer).cells()
            },
            key == KeyInput::Unicode('\n') ==> {
                &&& final(self).buffer() == Seq::<char>::empty()
                &&& (final(self).spec_body_writer(), final(frame_buffer).cells()) == {
                    let (w1, cells1) = write_char_step(
                        old(self).spec_body_writer(),
                        old(frame_buffer).cells(),
                        '\n',
                    );
                    write_str_steps(w1, cells1, old(self).spec_prompt())
                }
            },
            forall|c: char|
                key == KeyInput::Unicode(c) && c != '\x08' && c != '\n' ==> {
                    &&& final(self).buffer() == old(self).buffer().push(c)
                    &&& (final(self).spec_body_writer(), final(frame_buffer).cells())
                        == write_char_step(
                        old(self).spec_body_writer(),
                        old(frame_buffer).cells(),
                        c,
                    )
                },
    {
        match key {
            KeyInput::Unicode(character) => {
                if character == '\x08' {
                    // Backspace: drop the last collected character, echoing
                    // only if there was one.
                    match self.command_buffer.pop() {
                        Some(_) => {
                            self.write_body_char(character, frame_buffer);
                        },
                        None => {},
                    }
                } else if character == '\n' {
                    // Carriage return: the line is complete.
                    self.write_body_char(character, frame_buffer);
                    self.process_command_text();
                    self.command_buffer.clear();
                    self.display_prompt(frame_buffer);
                } else {
                    self.write_body_char(character, frame_buffer);
                    self.command_buffer.push(character);
                }
            },
            KeyInput::RawKey(_) => {},
        }
    }

    /// Redraws the header (with the given time), clears the collected line,
    /// turns the cursor on, and draws the first prompt.
    pub fn begin<F: FrameBuffer>(&mut self, frame_buffer: &mut F, now: &RTCDateTime)
        requires
            old(self).wf(),
            old(self).fits(old(frame_buffer).size()),
            grid_covers(old(frame_buffer).cells(), old(frame_buffer).size()),
            datetime_text(*now).len() <= old(self).spec_header_writer().rect.size.width,
        ensures
            final(self).wf(),
            final(self).fits(final(frame_buffer).size()),
            final(frame_buffer).size() == old(frame_buffer).size(),
            grid_covers(final(frame_buffer).cells(), final(frame_buffer).size()),
            final(self).buffer() == Seq::<char>::empty(),
            final(self).spec_prompt() == old(self).spec_prompt(),
            final(self).spec_header() == old(self).spec_header(),
            ({
                let start = ScreenFragmentWriter {
                    next_position: Point {
                        x: old(self).spec_header_writer().rect.origin.x,
                        y: old(self).spec_header_writer().rect.origin.y,
                    },
                    ..old(self).spec_header_writer()
                };
                let line = header_line(
                    Seq::<char>::empty(),
                    header_center(old(self).spec_header()),
                    datetime_text(*now),
                    old(self).spec_header_writer().rect.size.width as int,
                );
                let (hw, cells1) = write_str_steps(start, old(frame_buffer).cells(), line);
                let (bw, cells2) = write_str_steps(
                    old(self).spec_body_writer(),
                    cells1,
                    old(self).spec_prompt(),
                );
                &&& final(self).spec_header_writer() == hw
                &&& final(self).spec_body_writer() == bw
                &&& final(frame_buffer).cells() == cells2
            }),
    {
        self.refresh_header(frame_buffer, now);
        self.cursor.enable(CursorStyle::Underline);
        self.command_buffer.clear();
        self.display_prompt(frame_buffer);
    }
}

} // verus!
