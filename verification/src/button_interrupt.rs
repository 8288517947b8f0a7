use vstd::prelude::*;

verus! {

use crate::executor::{Fatal, ReadyQueue, wake_task, READY_CAPACITY};
use crate::future::Poll;

// ---------------------------------------------------------------------------
// Edge wait: a per-line wait primitive backed by an edge-sensitive hardware
// interrupt. The caller chooses which pin level satisfies the wait; a poll
// compares the sampled pin level against that target and either resolves at
// once or records the polling task in the line's single wake slot. The edge
// interrupt handler takes the slot (replacing it with the no-task value, so a
// bouncing line cannot re-queue the same task before it re-polls) and wakes
// the task that was recorded.
// ---------------------------------------------------------------------------

/// The instantaneous logic level of a digital input pin.
#[derive(Clone, Copy, PartialEq, Eq, Structural, Debug)]
pub enum PinLevel {
    Low,
    High,
}

/// The wait state of one monitored input line: the level that satisfies the
/// wait, and the single wake slot holding the task waiting on the line.
pub struct InputChannel {
    ready_state: PinLevel,
    wake_slot: Option<usize>,
}

impl InputChannel {
    /// The level that currently satisfies the wait.
    pub closed spec fn target(self) -> PinLevel {
        self.ready_state
    }

    /// The task recorded as waiting on this line, if any.
    pub closed spec fn waiter(self) -> Option<usize> {
        self.wake_slot
    }

    /// A fresh line wait: no task is waiting and the target level is `Low`
    /// (the level an active-low button reaches when pressed).
    pub fn new() -> (c: InputChannel)
        ensures
            c.target() == PinLevel::Low,
            c.waiter() == Option::<usize>::None,
    {
        InputChannel { ready_state: PinLevel::Low, wake_slot: None }
    }

    /// Chooses which pin level satisfies the wait.
    pub fn set_ready_state(&mut self, ready_state: PinLevel)
        ensures
            final(self).target() == ready_state,
            final(self).waiter() == old(self).waiter(),
    {
        self.ready_state = ready_state;
    }

    /// One poll of the edge wait, given the pin's sampled level: resolves at
    /// once if the pin already reads the target level, and otherwise records
    /// the polling task in the wake slot (displacing any previous waiter) and
    /// stays pending.
    pub fn poll(&mut self, task_id: usize, pin: PinLevel) -> (p: Poll<()>)
        ensures
            final(self).target() == old(self).target(),
            pin == old(self).target() ==> p == Poll::<()>::Ready(()) && *final(self) == *old(self),
            pin != old(self).target() ==> p == Poll::<()>::Pending && final(self).waiter() == Some(
                task_id,
            ),
    {
        if self.pin_matches(pin) {
            Poll::Ready(())
        } else {
            self.wake_slot = Some(task_id);
            Poll::Pending
        }
    }

    /// The work of the edge interrupt handler once the hardware flag for this
    /// line is cleared: takes the wake slot, leaving the no-task value in its
    /// place, and wakes the task that was recorded, if one was.
    pub fn handle_edge_interrupt(&mut self, ready: &mut ReadyQueue) -> (r: Result<(), Fatal>)
        ensures
            final(self).target() == old(self).target(),
            final(self).waiter() == Option::<usize>::None,
            match old(self).waiter() {
                Some(id) => {
                    &&& old(ready).ids().len() < READY_CAPACITY
                        ==> r is Ok && final(ready).ids() == old(ready).ids().push(id)
                    &&& old(ready).ids().len() >= READY_CAPACITY
                        ==> r == Err::<(), Fatal>(Fatal::ReadyQueueFull(id))
                            && *final(ready) == *old(ready)
                },
                None => r is Ok && *final(ready) == *old(ready),
            },
    {
        match self.wake_slot.take() {
            Some(id) => wake_task(ready, id),
            None => Ok(()),
        }
    }

    fn pin_matches(&self, pin: PinLevel) -> (b: bool)
        ensures
            b == (pin == self.target()),
    {
        match (pin, self.ready_state) {
            (PinLevel::Low, PinLevel::Low) => true,
            (PinLevel::High, PinLevel::High) => true,
            _ => false,
        }
    }
}

} // verus!
