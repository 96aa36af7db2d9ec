pub mod color;
pub mod cursor;
pub mod frame_buffer;
pub mod mock_frame_buffer;
pub mod screen_fragment_writer;
