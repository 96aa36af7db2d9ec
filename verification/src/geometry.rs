pub mod position;
pub mod rect;
pub mod size;
