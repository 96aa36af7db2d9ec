use kernel_core::log::{Level, Log, Logger};
use kernel_core::tui::text_screen::{Header, TextScreen};
use kernel_core::vga_video::color::{CharacterColor, Color};
use kernel_core::vga_video::mock_frame_buffer::MockFrameBuffer;

fn chars_of(s: &str) -> Vec<char> {
    s.chars().collect()
}

#[test]
fn text_screen_renders_header_and_logs() {
    let fb = MockFrameBuffer::new(30, 6);
    let mut screen = TextScreen::new(
        fb,
        CharacterColor::new(Color::Gray, Color::Black),
        Header::new(String::from("os"), String::from("1")),
    );
    screen.display();

    assert_eq!(screen.buffer().get_chars(0, 0, 8), chars_of("os (v1)\0"));
    assert_eq!(screen.buffer().get_chars(0, 1, 16), chars_of("=== [Logs] === \0"));

    screen.display_log(&Log { level: Level::INFO, message: String::from("boot") });
    assert_eq!(screen.buffer().get_chars(0, 2, 12), chars_of("[INFO] boot\0"));

    screen.display_log(&Log { level: Level::ERROR, message: String::from("bad") });
    assert_eq!(screen.buffer().get_chars(0, 3, 12), chars_of("[ERROR] bad\0"));
}

#[test]
fn text_screen_scrolls_its_log_area() {
    // Three log rows (height 5, two header rows): the fourth entry pushes
    // the first one out, the header rows stay put.
    let fb = MockFrameBuffer::new(20, 5);
    let mut screen = TextScreen::new(
        fb,
        CharacterColor::new(Color::Gray, Color::Black),
        Header::new(String::from("os"), String::from("1")),
    );
    screen.display();
    for message in ["one", "two", "three", "four"] {
        screen.display_log(&Log { level: Level::INFO, message: String::from(message) });
    }

    assert_eq!(screen.buffer().get_chars(0, 0, 8), chars_of("os (v1)\0"));
    assert_eq!(screen.buffer().get_chars(0, 2, 11), chars_of("[INFO] two\0"));
    assert_eq!(screen.buffer().get_chars(0, 3, 13), chars_of("[INFO] three\0"));
    assert_eq!(screen.buffer().get_chars(0, 4, 12), chars_of("[INFO] four\0"));
}

#[test]
fn text_screen_listens_to_the_logger() {
    let fb = MockFrameBuffer::new(30, 6);
    let mut screen = TextScreen::new(
        fb,
        CharacterColor::new(Color::Gray, Color::Black),
        Header::new(String::from("os"), String::from("1")),
    );
    screen.display();

    let mut logger: Logger<TextScreen<MockFrameBuffer>> = Logger::new(8);
    logger.register_listener(screen);
    logger.log(Level::WARNING, "low memory");

    let entries = logger.all();
    assert_eq!(entries.len(), 1);
    assert_eq!(entries[0].message, "low memory");
}
