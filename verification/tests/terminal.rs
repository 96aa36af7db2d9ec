use kernel_core::command::command::Command;
use kernel_core::command::command_register::CommandHandler;
use kernel_core::geometry::position::Point;
use kernel_core::geometry::size::Size;
use kernel_core::rtc::RTCDateTime;
use kernel_core::task::keyboard::KeyInput;
use kernel_core::tui::panic_screen::PanicScreen;
use kernel_core::tui::terminal_screen::{Header, TerminalScreen};
use kernel_core::vga_video::cursor::{Cursor, CursorStyle};
use kernel_core::vga_video::mock_frame_buffer::MockFrameBuffer;

struct RecordingCursor {
    enabled: bool,
    at: Point,
}

impl Cursor for RecordingCursor {
    fn enable(&mut self, _style: CursorStyle) {
        self.enabled = true;
    }

    fn disable(&mut self) {
        self.enabled = false;
    }

    fn move_to(&mut self, position: Point) {
        self.at = position;
    }
}

struct CommandTap {
    lines: Vec<String>,
}

impl CommandHandler for CommandTap {
    fn perform(&mut self, command: Command) {
        self.lines.push(command.command);
    }
}

fn sample_time() -> RTCDateTime {
    RTCDateTime { seconds: 3, minuts: 2, hours: 1, day_of_month: 5, month: 4, year: 2024 }
}

fn fresh_terminal(
    width: usize,
    height: usize,
) -> (TerminalScreen<RecordingCursor, CommandTap>, MockFrameBuffer) {
    let terminal = TerminalScreen::new(
        Size::new(width, height),
        Header::new(String::from("os"), String::from("1")),
        String::from("> "),
        RecordingCursor { enabled: false, at: Point::new(0, 0) },
        CommandTap { lines: Vec::new() },
    );
    (terminal, MockFrameBuffer::new(width, height))
}

#[test]
fn begin_draws_header_and_prompt() {
    let (mut terminal, mut fb) = fresh_terminal(40, 5);
    terminal.begin(&mut fb, &sample_time());

    // Header: name and version centered in the room the clock leaves free.
    // 40 - 19 = 21 columns of room; "os (ver. 1)" is 11 wide, so 5 spaces
    // go before it and 5 after, then the 19 timestamp characters.
    let row: String = fb.get_chars(0, 0, 40).into_iter().collect();
    assert_eq!(row, "     os (ver. 1)     2024-04-05 01:02:03");

    // Body: the prompt on the first body row.
    assert_eq!(fb.get_chars(0, 1, 3), vec!['>', ' ', '\0']);
}

#[test]
fn typing_collects_and_performs_command() {
    let (mut terminal, mut fb) = fresh_terminal(40, 5);
    terminal.begin(&mut fb, &sample_time());

    terminal.handle_keypress(KeyInput::Unicode('h'), &mut fb);
    terminal.handle_keypress(KeyInput::Unicode('i'), &mut fb);
    assert_eq!(fb.get_chars(0, 1, 5), vec!['>', ' ', 'h', 'i', '\0']);

    terminal.handle_keypress(KeyInput::Unicode('\n'), &mut fb);

    // The line went to the command handler, and a fresh prompt follows.
    assert_eq!(terminal.handler().lines, vec![String::from("hi")]);
    assert_eq!(fb.get_chars(0, 2, 3), vec!['>', ' ', '\0']);
}

#[test]
fn backspace_drops_last_character() {
    let (mut terminal, mut fb) = fresh_terminal(40, 5);
    terminal.begin(&mut fb, &sample_time());

    terminal.handle_keypress(KeyInput::Unicode('h'), &mut fb);
    terminal.handle_keypress(KeyInput::Unicode('\x08'), &mut fb);
    // Nothing collected: completing the line parses to no command at all.
    terminal.handle_keypress(KeyInput::Unicode('\n'), &mut fb);
    assert!(terminal.handler().lines.is_empty());

    // A second backspace on an empty line changes nothing on screen.
    let before = fb.get_chars(0, 1, 8);
    terminal.handle_keypress(KeyInput::Unicode('\x08'), &mut fb);
    assert_eq!(fb.get_chars(0, 1, 8), before);
}

#[test]
fn panic_screen_paints_banner_and_message() {
    let mut fb = MockFrameBuffer::new(20, 4);
    let screen = PanicScreen::new();
    screen.display(&mut fb, "boom");

    assert_eq!(
        fb.get_chars(0, 0, 9),
        vec!['[', 'P', 'A', 'N', 'I', 'C', '!', ']', '\0']
    );
    assert_eq!(fb.get_chars(0, 1, 5), vec!['b', 'o', 'o', 'm', '\0']);
}
