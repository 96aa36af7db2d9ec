pub mod panic_screen;
pub mod terminal_screen;
pub mod text_screen;
