use vstd::prelude::*;

verus! {

use crate::button_interrupt::{InputChannel, PinLevel};
use crate::channel::{Channel, Sender};
use crate::executor::{Fatal, ReadyQueue, READY_CAPACITY};
use crate::future::Poll;
use crate::ticker::{
    reached_spec, wrap_add_spec, TickDuration, TickInstant, TickTimer, Ticker, MAX_DEADLINES,
};

// ---------------------------------------------------------------------------
// The button task: watches an active-low button on one input line, publishes
// one `Pressed` event per press, and debounces by ignoring all edge activity
// for a fixed window after the press rather than by sampling. Its states
// cycle: wait for the pin to reach `Low`, hold off for the debounce window,
// wait for the pin to reach `High`, and begin again.
// ---------------------------------------------------------------------------

/// The event a press publishes to the mailbox.
#[derive(Clone, Copy, PartialEq, Eq, Structural, Debug)]
pub enum ButtonEvent {
    Pressed,
}

/// How long edge activity is ignored after a press, in millisecond ticks.
pub const DEBOUNCE_MS: u32 = 100;

enum ButtonState {
    WaitForPress,
    Debounce(TickTimer),
    WaitForRelease,
}

/// The press-watching task.
pub struct ButtonTask {
    input: InputChannel,
    state: ButtonState,
    debounce_duration: TickDuration,
    sender: Sender,
}

impl ButtonTask {
    pub closed spec fn in_wait_for_press(self) -> bool {
        self.state is WaitForPress
    }

    pub closed spec fn in_debounce(self) -> bool {
        self.state is Debounce
    }

    pub closed spec fn in_wait_for_release(self) -> bool {
        self.state is WaitForRelease
    }

    /// The absolute tick the debounce window ends at (meaningful while
    /// debouncing).
    pub closed spec fn debounce_end(self) -> u32 {
        match self.state {
            ButtonState::Debounce(timer) => timer.end(),
            _ => 0,
        }
    }

    /// The debounce window length in ticks.
    pub closed spec fn debounce_ms(self) -> u32 {
        self.debounce_duration.ticks
    }

    /// The pin level the edge wait is currently armed for.
    pub closed spec fn input_target(self) -> PinLevel {
        self.input.target()
    }

    /// The task recorded in the line's wake slot, if any.
    pub closed spec fn input_waiter(self) -> Option<usize> {
        self.input.waiter()
    }

    /// A debounce wait in progress has always been registered.
    pub open spec fn wf(self) -> bool {
        self.in_debounce() ==> debounce_timer_started(self)
    }

    /// A fresh button task: waiting for a press, with the standard debounce
    /// window.
    pub fn new(sender: Sender) -> (t: ButtonTask)
        ensures
            t.in_wait_for_press(),
            t.debounce_ms() == DEBOUNCE_MS,
            t.input_target() == PinLevel::Low,
            t.input_waiter() == Option::<usize>::None,
            t.wf(),
    {
        ButtonTask {
            input: InputChannel::new(),
            state: ButtonState::WaitForPress,
            debounce_duration: TickDuration::from_ticks(DEBOUNCE_MS),
            sender,
        }
    }

    /// The work of the line's edge interrupt: takes the wake slot and wakes
    /// the recorded task, if any.
    pub fn handle_edge_interrupt(&mut self, ready: &mut ReadyQueue) -> (r: Result<(), Fatal>)
        ensures
            final(self).input_waiter() == Option::<usize>::None,
            final(self).input_target() == old(self).input_target(),
            final(self).in_wait_for_press() == old(self).in_wait_for_press(),
            final(self).in_debounce() == old(self).in_debounce(),
            final(self).in_wait_for_release() == old(self).in_wait_for_release(),
            final(self).debounce_end() == old(self).debounce_end(),
            final(self).debounce_ms() == old(self).debounce_ms(),
            debounce_timer_started(*final(self)) == debounce_timer_started(*old(self)),
            match old(self).input_waiter() {
                Some(id) => {
                    &&& old(ready).ids().len() < READY_CAPACITY
                        ==> r is Ok && final(ready).ids() == old(ready).ids().push(id)
                    &&& old(ready).ids().len() >= READY_CAPACITY
                        ==> r == Err::<(), Fatal>(Fatal::ReadyQueueFull(id))
                            && *final(ready) == *old(ready)
                },
                None => r is Ok && *final(ready) == *old(ready),
            },
    {
        self.input.handle_edge_interrupt(ready)
    }

    /// One poll of the button state machine, given the pin's sampled level.
    /// A press edge publishes exactly one `Pressed` event and opens the
    /// debounce window; while debouncing, no event is published and no edge
    /// is acted on; after the window, the machine rearms for the release and
    /// then for the next press. The task itself never resolves.
    pub fn poll(&mut self, channel: &mut Channel<ButtonEvent>, ticker: &mut Ticker, ready: &mut ReadyQueue, now: TickInstant, pin: PinLevel, task_id: usize) -> (r:
        Result<Poll<()>, Fatal>)
        requires
            old(self).wf(),
            old(ticker).wf(),
        ensures
            final(self).wf(),
            final(ticker).wf(),
            final(self).debounce_ms() == old(self).debounce_ms(),
            old(ready).ids().is_prefix_of(final(ready).ids()),
            r matches Ok(p) ==> p == Poll::<()>::Pending,
            final(ticker).entries().len() <= old(ticker).entries().len() + 2,
            final(ready).ids().len() + final(ticker).entries().len() <= old(ready).ids().len() + old(ticker).entries().len() + 3,
            // an event is published exactly on the press edge
            !(old(self).in_wait_for_press() && pin == PinLevel::Low) ==> *final(channel) == *old(channel),
            old(self).in_debounce() ==> *final(channel) == *old(channel),
            old(self).in_wait_for_release() ==> *final(channel) == *old(channel),
            old(self).in_wait_for_press() && pin != PinLevel::Low ==> {
                &&& r == Ok::<Poll<()>, Fatal>(Poll::Pending)
                &&& final(self).in_wait_for_press()
                &&& final(self).input_target() == PinLevel::Low
                &&& final(self).input_waiter() == Some(task_id)
                &&& *final(ticker) == *old(ticker)
                &&& *final(ready) == *old(ready)
            },
            old(self).in_wait_for_press() && pin == PinLevel::Low ==> {
                &&& final(channel).stored() == Some(ButtonEvent::Pressed)
                &&& final(channel).registered() == old(channel).registered()
                &&& r is Ok ==> {
                    &&& final(self).in_debounce()
                    &&& final(self).debounce_end() == wrap_add_spec(
                        now.ticks,
                        old(self).debounce_ms(),
                    )
                    &&& !reached_spec(now.ticks, final(self).debounce_end()) ==> final(ticker).entries().contains((final(self).debounce_end(), task_id))
                }
                &&& r matches Err(f) ==> f == Fatal::DeadlineHeapFull(task_id) || f
                    is ReadyQueueFull
                &&& old(ticker).entries().len() < MAX_DEADLINES && old(ready).ids().len() + old(ticker).entries().len() + 2 <= READY_CAPACITY ==> r is Ok
            },
            old(self).in_debounce() && !reached_spec(now.ticks, old(self).debounce_end()) ==> {
                &&& r == Ok::<Poll<()>, Fatal>(Poll::Pending)
                &&& final(self).in_debounce()
                &&& final(self).debounce_end() == old(self).debounce_end()
                &&& final(self).input_waiter() == old(self).input_waiter()
                &&& *final(ticker) == *old(ticker)
                &&& *final(ready) == *old(ready)
            },
            old(self).in_debounce() && reached_spec(now.ticks, old(self).debounce_end()) ==> {
                &&& r == Ok::<Poll<()>, Fatal>(Poll::Pending)
                &&& *final(ticker) == *old(ticker)
                &&& *final(ready) == *old(ready)
                &&& release_step(*final(self), pin, task_id)
            },
            old(self).in_wait_for_release() ==> {
                &&& r == Ok::<Poll<()>, Fatal>(Poll::Pending)
                &&& *final(ticker) == *old(ticker)
                &&& *final(ready) == *old(ready)
                &&& release_step(*final(self), pin, task_id)
            },
    {
        match self.state {
            ButtonState::WaitForPress => {
                self.input.set_ready_state(PinLevel::Low);
                match self.input.poll(task_id, pin) {
                    Poll::Ready(u) => {
                        match self.sender.send(channel, ready, ButtonEvent::Pressed) {
                            Ok(ok) => ok,
                            Err(f) => {
                                return Err(f);
                            },
                        }
                        let mut timer = TickTimer::new(now, self.debounce_duration);
                        match timer.poll(ticker, now, task_id, ready) {
                            Ok(p) => p,
                            Err(f) => {
                                self.state = ButtonState::Debounce(timer);
                                return Err(f);
                            },
                        };
                        self.state = ButtonState::Debounce(timer);
                    },
                    Poll::Pending => {},
                }
            },
            _ => {
                let debounce_done: bool;
                match &mut self.state {
                    ButtonState::Debounce(timer) => {
                        match timer.poll(ticker, now, task_id, ready) {
                            Ok(Poll::Ready(u)) => {
                                debounce_done = true;
                            },
                            Ok(Poll::Pending) => {
                                debounce_done = false;
                            },
                            Err(f) => {
                                proof {
                                    assert(false);
                                }
                                debounce_done = false;
                            },
                        }
                    },
                    _ => {
                        debounce_done = true;
                    },
                }
                if debounce_done {
                    self.state = ButtonState::WaitForRelease;
                    self.input.set_ready_state(PinLevel::High);
                    match self.input.poll(task_id, pin) {
                        Poll::Ready(u) => {
                            self.state = ButtonState::WaitForPress;
                            self.input.set_ready_state(PinLevel::Low);
                            let p = self.input.poll(task_id, pin);
                        },
                        Poll::Pending => {},
                    }
                }
            },
        }
        Ok(Poll::Pending)
    }
}

/// The three machine states are mutually exclusive, and every button task is
/// in exactly one of them.
pub proof fn lemma_button_state_one_hot(t: ButtonTask)
    ensures
        t.in_wait_for_press() || t.in_debounce() || t.in_wait_for_release(),
        t.in_wait_for_press() ==> !t.in_debounce() && !t.in_wait_for_release(),
        t.in_debounce() ==> !t.in_wait_for_press() && !t.in_wait_for_release(),
        t.in_wait_for_release() ==> !t.in_wait_for_press() && !t.in_debounce(),
{
}

/// Whether the debounce timer held by a debouncing button has been
/// registered.
pub closed spec fn debounce_timer_started(t: ButtonTask) -> bool {
    match t.state {
        ButtonState::Debounce(timer) => timer.started(),
        _ => true,
    }
}

/// Where the state machine stands right after acting on a debounce expiry or
/// a release wait with the pin sampled at `pin`: a `High` pin completes the
/// release and rearms for the next press; any other level leaves the machine
/// waiting for the release. Either way the polling task sits in the line's
/// wake slot.
pub open spec fn release_step(t: ButtonTask, pin: PinLevel, task_id: usize) -> bool {
    &&& t.input_waiter() == Some(task_id)
    &&& if pin == PinLevel::High {
        t.in_wait_for_press() && t.input_target() == PinLevel::Low
    } else {
        t.in_wait_for_release() && t.input_target() == PinLevel::High
    }
}

} // verus!
