//! The timer a host may register.

use vstd::prelude::*;
use crate::registry::OnceSlot;

verus! {

/// A timer that a host provides to measure the duration of a test.
pub trait Time: Sync + Send {
    /// Starts the timer.
    fn start(&mut self);

    /// Ends the timer.
    fn end(&mut self);
}

/// The timer used when the host provides none: it measures nothing.
pub struct VacuumTimer;

impl Time for VacuumTimer {
    fn start(&mut self) {
    }

    fn end(&mut self) {
    }
}

/// Registers the timer, in a slot that holds none yet.
pub fn set_timer<T>(slot: &mut OnceSlot<T>, timer: T)
    requires
        old(slot)@ is None,
    ensures
        final(slot)@ == Some(timer),
{
    slot.set(timer)
}

} // verus!
