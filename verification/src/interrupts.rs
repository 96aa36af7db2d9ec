//! Vector bookkeeping for the interrupt dispatch layer.
//!
//! The two chained interrupt controllers are programmed with base offsets
//! chosen here; the processor reserves vectors 0 through 31 for exceptions,
//! so the offsets start right above that range, and the second controller's
//! eight lines follow the first's. The embedding kernel owns the actual
//! vector table, the controller programming and the end-of-interrupt
//! protocol; its handlers feed this library (the keyboard line pushes into
//! the event bridge's producer side, the timer line invokes the registered
//! [`TimerHandler`]).

use vstd::prelude::*;

verus! {

/// Base vector of the first (master) interrupt controller.
pub const PIC_1_OFFSET: u8 = 32;

/// Base vector of the second (slave) controller, chained eight lines after
/// the first.
pub const PIC_2_OFFSET: u8 = PIC_1_OFFSET + 8;

/// The external interrupt lines this core handles.
#[derive(Debug, Clone, Copy, PartialEq, Eq, Structural)]
pub enum ExternalInterrupt {
    Timer,
    Keyboard,
}

/// The vector each external line is routed to: the timer sits on the first
/// controller's base vector, the keyboard on the line after it.
pub open spec fn spec_vector(line: ExternalInterrupt) -> u8 {
    match line {
        ExternalInterrupt::Timer => PIC_1_OFFSET,
        ExternalInterrupt::Keyboard => (PIC_1_OFFSET + 1) as u8,
    }
}

impl ExternalInterrupt {
    pub fn as_u8(self) -> (v: u8)
        ensures
            v == spec_vector(self),
    {
        match self {
            ExternalInterrupt::Timer => PIC_1_OFFSET,
            ExternalInterrupt::Keyboard => PIC_1_OFFSET + 1,
        }
    }

    pub fn as_usize(self) -> (v: usize)
        ensures
            v == spec_vector(self),
    {
        self.as_u8() as usize
    }
}

/// The controller offsets never overlap the processor's reserved exception
/// range (vectors 0 through 31), and the two controllers' eight-line ranges
/// are disjoint: the second starts exactly where the first ends.
pub proof fn lemma_vectors_clear_of_exceptions()
    ensures
        PIC_1_OFFSET >= 32,
        PIC_2_OFFSET == PIC_1_OFFSET + 8,
        forall|line: ExternalInterrupt| spec_vector(line) >= 32,
{
    assert forall|line: ExternalInterrupt| spec_vector(line) >= 32 by {
        match line {
            ExternalInterrupt::Timer => {},
            ExternalInterrupt::Keyboard => {},
        }
    }
}

/// Invoked once per timer tick, before the controller is acknowledged;
/// implemented by outside collaborators (the kernel plugs in a clock-display
/// refresher). Must not block.
pub trait TimerHandler {
    fn on_tick(&mut self);
}

} // verus!
