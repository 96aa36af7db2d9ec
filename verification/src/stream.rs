use vstd::prelude::*;

verus! {

/// A non-blocking byte source: `read` returns the next byte, or `None` when
/// none is available right now.
pub trait InputStream {
    fn read(&self) -> Option<u8>;
}

/// A byte sink; implemented by whatever collaborator displays or forwards
/// output.
pub trait OutputStream {
    fn write(&mut self, value: u8);
}

} // verus!
