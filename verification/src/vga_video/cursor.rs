use vstd::prelude::*;

use crate::geometry::position::Point;

verus! {

/// The shapes a hardware cursor can take.
#[derive(Debug, Clone, Copy, PartialEq, Eq, Structural)]
pub enum CursorStyle {
    Underline,
}

/// A screen cursor; implemented by the display driver (the adapter's
/// hardware cursor in the kernel, a recorder in tests).
pub trait Cursor {
    fn enable(&mut self, style: CursorStyle);

    fn disable(&mut self);

    fn move_to(&mut self, position: Point);
}

} // verus!
