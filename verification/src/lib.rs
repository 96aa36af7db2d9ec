//! Core of a cooperative, interrupt-driven kernel: the interrupt vector
//! bookkeeping, the bounded event bridge that carries raw device bytes from
//! interrupt context to a suspended consumer, and the task executor that
//! resumes ready tasks and decides when the processor may halt.

use vstd::prelude::*;

pub mod command;
pub mod geometry;
pub mod interrupts;
pub mod log;
pub mod rtc;
pub mod stream;
pub mod task;
pub mod tui;
pub mod vga_video;

verus! {

/// A unit of work that the kernel's test harness can run.
pub trait Testable {
    fn run(&self);
}

} // verus!
