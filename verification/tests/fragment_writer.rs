use kernel_core::geometry::position::Point;
use kernel_core::geometry::rect::Rect;
use kernel_core::geometry::size::Size;
use kernel_core::vga_video::color::{CharacterColor, Color};
use kernel_core::vga_video::mock_frame_buffer::MockFrameBuffer;
use kernel_core::vga_video::screen_fragment_writer::ScreenFragmentWriter;

#[test]
fn test_write_short_text() {
    let mut frame_buffer = MockFrameBuffer::new(80, 25);
    let mut writer = ScreenFragmentWriter::new(
        Rect::new(Point::new(1, 1), Size::new(10, 3)),
        CharacterColor::default(),
    );

    writer.write_str("Abc", &mut frame_buffer);

    assert_eq!(frame_buffer.get_chars(0, 0, 5), vec!['\0'; 5]);
    assert_eq!(frame_buffer.get_chars(0, 1, 5), vec!['\0', 'A', 'b', 'c', '\0']);
    assert_eq!(frame_buffer.get_chars(0, 2, 5), vec!['\0'; 5]);
}

#[test]
fn test_write_multiline_text() {
    let mut frame_buffer = MockFrameBuffer::new(80, 25);
    let mut writer = ScreenFragmentWriter::new(
        Rect::new(Point::new(1, 1), Size::new(10, 3)),
        CharacterColor::default(),
    );

    writer.write_str(
        "Lorem ipsu\
         m dolor si\
         t amet",
        &mut frame_buffer,
    );

    assert_eq!(
        frame_buffer.get_chars(0, 1, 12),
        vec!['\0', 'L', 'o', 'r', 'e', 'm', ' ', 'i', 'p', 's', 'u', '\0']
    );
    assert_eq!(
        frame_buffer.get_chars(0, 2, 12),
        vec!['\0', 'm', ' ', 'd', 'o', 'l', 'o', 'r', ' ', 's', 'i', '\0']
    );
    assert_eq!(
        frame_buffer.get_chars(0, 3, 12),
        vec!['\0', 't', ' ', 'a', 'm', 'e', 't', '\0', '\0', '\0', '\0', '\0']
    );
}

#[test]
fn test_write_text_with_new_line() {
    let mut frame_buffer = MockFrameBuffer::new(80, 25);
    let mut writer = ScreenFragmentWriter::new(
        Rect::new(Point::new(1, 1), Size::new(10, 3)),
        CharacterColor::default(),
    );

    writer.write_str("Lorem\nipsum", &mut frame_buffer);

    assert_eq!(
        frame_buffer.get_chars(0, 1, 12),
        vec!['\0', 'L', 'o', 'r', 'e', 'm', '\0', '\0', '\0', '\0', '\0', '\0']
    );
    assert_eq!(
        frame_buffer.get_chars(0, 2, 12),
        vec!['\0', 'i', 'p', 's', 'u', 'm', '\0', '\0', '\0', '\0', '\0', '\0']
    );
}

#[test]
fn test_write_text_with_scroll() {
    let mut frame_buffer = MockFrameBuffer::new(80, 25);
    let mut writer = ScreenFragmentWriter::new(
        Rect::new(Point::new(1, 1), Size::new(10, 3)),
        CharacterColor::default(),
    );

    writer.write_str("Lorem\nipsum\ndolor\nsit", &mut frame_buffer);

    assert_eq!(
        frame_buffer.get_chars(0, 1, 12),
        vec!['\0', 'i', 'p', 's', 'u', 'm', '\0', '\0', '\0', '\0', '\0', '\0']
    );
    assert_eq!(
        frame_buffer.get_chars(0, 2, 12),
        vec!['\0', 'd', 'o', 'l', 'o', 'r', '\0', '\0', '\0', '\0', '\0', '\0']
    );
    assert_eq!(
        frame_buffer.get_chars(0, 3, 12),
        vec!['\0', 's', 'i', 't', '\0', '\0', '\0', '\0', '\0', '\0', '\0', '\0']
    );
}

#[test]
fn test_write_two_fragments() {
    let mut frame_buffer = MockFrameBuffer::new(80, 25);

    let mut writer_1 = ScreenFragmentWriter::new(
        Rect::new(Point::new(1, 1), Size::new(10, 1)),
        CharacterColor::default(),
    );

    let mut writer_2 = ScreenFragmentWriter::new(
        Rect::new(Point::new(1, 3), Size::new(10, 1)),
        CharacterColor::default(),
    );

    writer_1.write_str("Lorem", &mut frame_buffer);
    writer_2.write_str("ipsum", &mut frame_buffer);

    assert_eq!(frame_buffer.get_chars(0, 0, 7), vec!['\0'; 7]);
    assert_eq!(frame_buffer.get_chars(0, 1, 7), vec!['\0', 'L', 'o', 'r', 'e', 'm', '\0']);
    assert_eq!(frame_buffer.get_chars(0, 2, 7), vec!['\0'; 7]);
    assert_eq!(frame_buffer.get_chars(0, 3, 7), vec!['\0', 'i', 'p', 's', 'u', 'm', '\0']);
    assert_eq!(frame_buffer.get_chars(0, 4, 7), vec!['\0'; 7]);
}

#[test]
fn written_cell_carries_its_color() {
    let mut frame_buffer = MockFrameBuffer::new(8, 2);
    let color = CharacterColor::new(Color::Red, Color::Black);
    let mut writer =
        ScreenFragmentWriter::new(Rect::new(Point::new(0, 0), Size::new(8, 2)), color);
    writer.write_str("x", &mut frame_buffer);
    assert_eq!(frame_buffer.get_chars(0, 0, 2), vec!['x', '\0']);
}

#[test]
fn character_color_packs_nibbles() {
    assert_eq!(CharacterColor::new(Color::White, Color::Black).code(), 0x0F);
    assert_eq!(CharacterColor::new(Color::Black, Color::White).code(), 0xF0);
    assert_eq!(CharacterColor::new(Color::LightCyan, Color::Blue).code(), 0x1B);
    assert_eq!(CharacterColor::zero().code(), 0x00);
    assert_eq!(CharacterColor::default().code(), 0x00);
}
